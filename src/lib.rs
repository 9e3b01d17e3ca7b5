// CSS class-name completion for editors, verified with Verus.
//
// - `position`: editor positions (line, UTF-16 column) to character offsets.
// - `context`: whether a cursor sits inside a `class` / `className` attribute value, and
//   the partial name typed before it.
// - `scanner`: class selector names defined by stylesheet text.
// - `files`: which files and directories a workspace scan indexes.
// - `index`: the per-file index of class names.
// - `frameworks`: the fixed Bootstrap 5 vocabulary.
// - `order`: lexicographic order and prefix tests on names.
// - `completion`: the sorted, prefix-filtered candidates for a cursor.

pub mod completion;
pub mod context;
pub mod files;
pub mod frameworks;
pub mod index;
pub mod order;
pub mod position;
pub mod scanner;
mod text;
