use vstd::prelude::*;
use vstd::string::*;

use crate::scanner::{distinct, names_of};

verus! {

/// The character sequences of string slices, in order.
pub open spec fn str_views(v: Seq<&str>) -> Seq<Seq<char>> {
    v.map_values(|s: &str| s@)
}

/// Every `h + t` for `h` of `heads` and `t` of `tails`, heads outermost.
pub open spec fn product(heads: Seq<Seq<char>>, tails: Seq<Seq<char>>) -> Seq<Seq<char>>
    decreases heads.len(),
{
    if heads.len() == 0 {
        Seq::empty()
    } else {
        product(heads.drop_last(), tails) + tails.map_values(|t: Seq<char>| heads.last() + t)
    }
}

/// Joins each of `heads` with each of `tails`, heads outermost.
pub fn cross(heads: &Vec<String>, tails: &[&str]) -> (r: Vec<String>)
    ensures
        names_of(r@) == product(names_of(heads@), str_views(tails@)),
{
    let ghost hs = names_of(heads@);
    let ghost ts = str_views(tails@);
    let mut out: Vec<String> = Vec::new();
    let mut i: usize = 0;
    while i < heads.len()
        invariant
            i <= heads.len(),
            hs == names_of(heads@),
            ts == str_views(tails@),
            names_of(out@) == product(hs.take(i as int), ts),
        decreases heads.len() - i,
    {
        let ghost base = names_of(out@);
        let mut j: usize = 0;
        while j < tails.len()
            invariant
                i < heads.len(),
                j <= tails.len(),
                hs == names_of(heads@),
                ts == str_views(tails@),
                base == product(hs.take(i as int), ts),
                names_of(out@) == base + ts.take(j as int).map_values(|t: Seq<char>| hs[i as int] + t),
            decreases tails.len() - j,
        {
            let s = heads[i].clone().concat(tails[j]);
            let ghost o0 = names_of(out@);
            out.push(s);
            proof {
                assert(names_of(out@) =~= o0.push(s@));
                assert(ts.take(j + 1).map_values(|t: Seq<char>| hs[i as int] + t) =~= ts.take(
                    j as int,
                ).map_values(|t: Seq<char>| hs[i as int] + t).push(hs[i as int] + ts[j as int]));
                assert(names_of(out@) =~= base + ts.take(j + 1).map_values(
                    |t: Seq<char>| hs[i as int] + t,
                ));
            }
            j = j + 1;
        }
        proof {
            assert(ts.take(tails.len() as int) =~= ts);
            assert(hs.take(i + 1).drop_last() =~= hs.take(i as int));
            assert(hs.take(i + 1).last() == hs[i as int]);
        }
        i = i + 1;
    }
    proof {
        assert(hs.take(heads.len() as int) =~= hs);
    }
    out
}

/// Each string slice of `v` as a `String`.
pub fn words(v: &[&str]) -> (r: Vec<String>)
    ensures
        names_of(r@) == str_views(v@),
{
    let mut out: Vec<String> = Vec::new();
    let mut k: usize = 0;
    while k < v.len()
        invariant
            k <= v.len(),
            names_of(out@) == str_views(v@).take(k as int),
        decreases v.len() - k,
    {
        let s = String::from_str(v[k]);
        let ghost o0 = names_of(out@);
        out.push(s);
        proof {
            assert(names_of(out@) =~= o0.push(s@));
            assert(str_views(v@).take(k + 1) =~= str_views(v@).take(k as int).push(v@[k as int]@));
        }
        k = k + 1;
    }
    assert(str_views(v@).take(k as int) =~= str_views(v@));
    out
}

/// The responsive infixes: none, then one per breakpoint.
pub open spec fn breakpoint_infixes() -> Seq<Seq<char>> {
    seq![""@, "sm-"@, "md-"@, "lg-"@, "xl-"@, "xxl-"@]
}

fn breakpoints() -> (r: &'static [&'static str])
    ensures
        str_views(r@) == breakpoint_infixes(),
{
    let r: &'static [&'static str] = &["", "sm-", "md-", "lg-", "xl-", "xxl-"];
    assert(str_views(r@) =~= breakpoint_infixes());
    r
}

pub open spec fn colors() -> Seq<Seq<char>> {
    seq!["primary"@, "secondary"@, "success"@, "danger"@, "warning"@, "info"@, "light"@, "dark"@]
}

fn colors_table() -> (r: &'static [&'static str])
    ensures
        str_views(r@) == colors(),
{
    let r: &'static [&'static str] = &[
        "primary", "secondary", "success", "danger", "warning", "info", "light", "dark",
    ];
    assert(str_views(r@) =~= colors());
    r
}
pub open spec fn opacities() -> Seq<Seq<char>> {
    seq!["10"@, "25"@, "50"@, "75"@, "100"@]
}

fn opacities_table() -> (r: &'static [&'static str])
    ensures
        str_views(r@) == opacities(),
{
    let r: &'static [&'static str] = &["10", "25", "50", "75", "100"];
    assert(str_views(r@) =~= opacities());
    r
}
pub open spec fn spacing_sides() -> Seq<Seq<char>> {
    seq![""@, "t"@, "b"@, "s"@, "e"@, "x"@, "y"@]
}

fn spacing_sides_table() -> (r: &'static [&'static str])
    ensures
        str_views(r@) == spacing_sides(),
{
    let r: &'static [&'static str] = &["", "t", "b", "s", "e", "x", "y"];
    assert(str_views(r@) =~= spacing_sides());
    r
}
pub open spec fn display_values() -> Seq<Seq<char>> {
    seq![
        "none"@, "inline"@, "inline-block"@, "block"@, "grid"@, "inline-grid"@, "table"@,
        "table-row"@, "table-cell"@, "flex"@, "inline-flex"@,
    ]
}

fn display_values_table() -> (r: &'static [&'static str])
    ensures
        str_views(r@) == display_values(),
{
    let r: &'static [&'static str] = &[
        "none", "inline", "inline-block", "block", "grid", "inline-grid", "table", "table-row",
        "table-cell", "flex", "inline-flex",
    ];
    assert(str_views(r@) =~= display_values());
    r
}
pub open spec fn scale_0_to_5() -> Seq<Seq<char>> {
    seq!["0"@, "1"@, "2"@, "3"@, "4"@, "5"@]
}

fn scale_0_to_5_table() -> (r: &'static [&'static str])
    ensures
        str_views(r@) == scale_0_to_5(),
{
    let r: &'static [&'static str] = &["0", "1", "2", "3", "4", "5"];
    assert(str_views(r@) =~= scale_0_to_5());
    r
}
pub open spec fn components() -> Seq<Seq<char>> {
    seq![
        "col"@, "col-auto"@, "col-1"@, "col-2"@, "col-3"@, "col-4"@, "col-5"@, "col-6"@, "col-7"@,
        "col-8"@, "col-9"@, "col-10"@, "col-11"@, "col-12"@, "col-sm"@, "col-sm-auto"@, "col-sm-1"@,
        "col-sm-2"@, "col-sm-3"@, "col-sm-4"@, "col-sm-5"@, "col-sm-6"@, "col-sm-7"@, "col-sm-8"@,
        "col-sm-9"@, "col-sm-10"@, "col-sm-11"@, "col-sm-12"@, "col-md"@, "col-md-auto"@,
        "col-md-1"@, "col-md-2"@, "col-md-3"@, "col-md-4"@, "col-md-5"@, "col-md-6"@, "col-md-7"@,
        "col-md-8"@, "col-md-9"@, "col-md-10"@, "col-md-11"@, "col-md-12"@, "col-lg"@,
        "col-lg-auto"@, "col-lg-1"@, "col-lg-2"@, "col-lg-3"@, "col-lg-4"@, "col-lg-5"@,
        "col-lg-6"@, "col-lg-7"@, "col-lg-8"@, "col-lg-9"@, "col-lg-10"@, "col-lg-11"@,
        "col-lg-12"@, "col-xl"@, "col-xl-auto"@, "col-xl-1"@, "col-xl-2"@, "col-xl-3"@, "col-xl-4"@,
        "col-xl-5"@, "col-xl-6"@, "col-xl-7"@, "col-xl-8"@, "col-xl-9"@, "col-xl-10"@, "col-xl-11"@,
        "col-xl-12"@, "col-xxl"@, "col-xxl-auto"@, "col-xxl-1"@, "col-xxl-2"@, "col-xxl-3"@,
        "col-xxl-4"@, "col-xxl-5"@, "col-xxl-6"@, "col-xxl-7"@, "col-xxl-8"@, "col-xxl-9"@,
        "col-xxl-10"@, "col-xxl-11"@, "col-xxl-12"@, "col-form-label"@, "col-form-label-lg"@,
        "col-form-label-sm"@, "row"@, "row-cols-1"@, "row-cols-2"@, "row-cols-3"@, "row-cols-4"@,
        "row-cols-5"@, "row-cols-6"@, "row-cols-auto"@, "row-cols-sm-1"@, "row-cols-sm-2"@,
        "row-cols-sm-3"@, "row-cols-sm-4"@, "row-cols-sm-5"@, "row-cols-sm-6"@, "row-cols-sm-auto"@,
        "row-cols-md-1"@, "row-cols-md-2"@, "row-cols-md-3"@, "row-cols-md-4"@, "row-cols-md-5"@,
        "row-cols-md-6"@, "row-cols-md-auto"@, "row-cols-lg-1"@, "row-cols-lg-2"@, "row-cols-lg-3"@,
        "row-cols-lg-4"@, "row-cols-lg-5"@, "row-cols-lg-6"@, "row-cols-lg-auto"@, "row-cols-xl-1"@,
        "row-cols-xl-2"@, "row-cols-xl-3"@, "row-cols-xl-4"@, "row-cols-xl-5"@, "row-cols-xl-6"@,
        "row-cols-xl-auto"@, "row-cols-xxl-1"@, "row-cols-xxl-2"@, "row-cols-xxl-3"@,
        "row-cols-xxl-4"@, "row-cols-xxl-5"@, "row-cols-xxl-6"@, "row-cols-xxl-auto"@, "container"@,
        "container-fluid"@, "container-sm"@, "container-md"@, "container-lg"@, "container-xl"@,
        "container-xxl"@, "offset-1"@, "offset-2"@, "offset-3"@, "offset-4"@, "offset-5"@,
        "offset-6"@, "offset-7"@, "offset-8"@, "offset-9"@, "offset-10"@, "offset-11"@,
        "offset-sm-0"@, "offset-sm-1"@, "offset-sm-2"@, "offset-sm-3"@, "offset-sm-4"@,
        "offset-sm-5"@, "offset-sm-6"@, "offset-sm-7"@, "offset-sm-8"@, "offset-sm-9"@,
        "offset-sm-10"@, "offset-sm-11"@, "offset-md-0"@, "offset-md-1"@, "offset-md-2"@,
        "offset-md-3"@, "offset-md-4"@, "offset-md-5"@, "offset-md-6"@, "offset-md-7"@,
        "offset-md-8"@, "offset-md-9"@, "offset-md-10"@, "offset-md-11"@, "offset-lg-0"@,
        "offset-lg-1"@, "offset-lg-2"@, "offset-lg-3"@, "offset-lg-4"@, "offset-lg-5"@,
        "offset-lg-6"@, "offset-lg-7"@, "offset-lg-8"@, "offset-lg-9"@, "offset-lg-10"@,
        "offset-lg-11"@, "offset-xl-0"@, "offset-xl-1"@, "offset-xl-2"@, "offset-xl-3"@,
        "offset-xl-4"@, "offset-xl-5"@, "offset-xl-6"@, "offset-xl-7"@, "offset-xl-8"@,
        "offset-xl-9"@, "offset-xl-10"@, "offset-xl-11"@, "offset-xxl-0"@, "offset-xxl-1"@,
        "offset-xxl-2"@, "offset-xxl-3"@, "offset-xxl-4"@, "offset-xxl-5"@, "offset-xxl-6"@,
        "offset-xxl-7"@, "offset-xxl-8"@, "offset-xxl-9"@, "offset-xxl-10"@, "offset-xxl-11"@,
        "active"@, "disabled"@, "show"@, "fade"@, "collapse"@, "collapsing"@,
        "collapse-horizontal"@, "is-valid"@, "is-invalid"@, "was-validated"@, "h1"@, "h2"@, "h3"@,
        "h4"@, "h5"@, "h6"@, "lead"@, "mark"@, "small"@, "initialism"@, "display-1"@, "display-2"@,
        "display-3"@, "display-4"@, "display-5"@, "display-6"@, "list-unstyled"@, "list-inline"@,
        "list-inline-item"@, "img-fluid"@, "img-thumbnail"@, "figure"@, "figure-img"@,
        "figure-caption"@, "btn"@, "btn-primary"@, "btn-secondary"@, "btn-success"@, "btn-danger"@,
        "btn-warning"@, "btn-info"@, "btn-light"@, "btn-dark"@, "btn-link"@, "btn-outline-primary"@,
        "btn-outline-secondary"@, "btn-outline-success"@, "btn-outline-danger"@,
        "btn-outline-warning"@, "btn-outline-info"@, "btn-outline-light"@, "btn-outline-dark"@,
        "btn-lg"@, "btn-sm"@, "btn-close"@, "btn-close-white"@, "btn-check"@, "btn-group"@,
        "btn-group-lg"@, "btn-group-sm"@, "btn-group-vertical"@, "btn-toolbar"@, "accordion"@,
        "accordion-item"@, "accordion-header"@, "accordion-button"@, "accordion-body"@,
        "accordion-flush"@, "alert"@, "alert-primary"@, "alert-secondary"@, "alert-success"@,
        "alert-danger"@, "alert-warning"@, "alert-info"@, "alert-light"@, "alert-dark"@,
        "alert-dismissible"@, "alert-link"@, "alert-heading"@, "badge"@, "breadcrumb"@,
        "breadcrumb-item"@, "breadcrumb-divider"@, "card"@, "card-body"@, "card-title"@,
        "card-subtitle"@, "card-text"@, "card-link"@, "card-header"@, "card-footer"@, "card-img"@,
        "card-img-top"@, "card-img-bottom"@, "card-img-overlay"@, "card-group"@,
        "card-header-tabs"@, "card-header-pills"@, "carousel"@, "carousel-inner"@, "carousel-item"@,
        "carousel-fade"@, "carousel-dark"@, "carousel-control-prev"@, "carousel-control-next"@,
        "carousel-control-prev-icon"@, "carousel-control-next-icon"@, "carousel-indicators"@,
        "carousel-caption"@, "dropdown"@, "dropdown-toggle"@, "dropdown-toggle-split"@,
        "dropdown-menu"@, "dropdown-item"@, "dropdown-header"@, "dropdown-divider"@,
        "dropdown-item-text"@, "dropdown-menu-dark"@, "dropdown-center"@, "dropdown-menu-start"@,
        "dropdown-menu-end"@, "dropdown-menu-sm-start"@, "dropdown-menu-sm-end"@,
        "dropdown-menu-md-start"@, "dropdown-menu-md-end"@, "dropdown-menu-lg-start"@,
        "dropdown-menu-lg-end"@, "dropdown-menu-xl-start"@, "dropdown-menu-xl-end"@,
        "dropdown-menu-xxl-start"@, "dropdown-menu-xxl-end"@, "dropup"@, "dropup-center"@,
        "dropend"@, "dropstart"@, "form-label"@, "form-control"@, "form-control-lg"@,
        "form-control-sm"@, "form-control-plaintext"@, "form-control-color"@, "form-text"@,
        "form-select"@, "form-select-lg"@, "form-select-sm"@, "form-check"@, "form-check-input"@,
        "form-check-label"@, "form-check-inline"@, "form-check-reverse"@, "form-switch"@,
        "form-range"@, "form-floating"@, "input-group"@, "input-group-lg"@, "input-group-sm"@,
        "input-group-text"@, "has-validation"@, "invalid-feedback"@, "valid-feedback"@,
        "invalid-tooltip"@, "valid-tooltip"@, "modal"@, "modal-dialog"@, "modal-content"@,
        "modal-header"@, "modal-title"@, "modal-body"@, "modal-footer"@, "modal-sm"@, "modal-lg"@,
        "modal-xl"@, "modal-fullscreen"@, "modal-fullscreen-sm-down"@, "modal-fullscreen-md-down"@,
        "modal-fullscreen-lg-down"@, "modal-fullscreen-xl-down"@, "modal-fullscreen-xxl-down"@,
        "modal-dialog-scrollable"@, "modal-dialog-centered"@, "modal-backdrop"@, "modal-open"@,
        "modal-static"@, "navbar"@, "navbar-brand"@, "navbar-toggler"@, "navbar-toggler-icon"@,
        "navbar-collapse"@, "navbar-nav"@, "navbar-nav-scroll"@, "navbar-text"@, "navbar-dark"@,
        "navbar-light"@, "navbar-expand"@, "navbar-expand-sm"@, "navbar-expand-md"@,
        "navbar-expand-lg"@, "navbar-expand-xl"@, "navbar-expand-xxl"@, "nav"@, "nav-link"@,
        "nav-tabs"@, "nav-pills"@, "nav-fill"@, "nav-justified"@, "nav-underline"@, "tab-content"@,
        "tab-pane"@, "offcanvas"@, "offcanvas-body"@, "offcanvas-header"@, "offcanvas-title"@,
        "offcanvas-start"@, "offcanvas-end"@, "offcanvas-top"@, "offcanvas-bottom"@,
        "offcanvas-sm"@, "offcanvas-md"@, "offcanvas-lg"@, "offcanvas-xl"@, "offcanvas-xxl"@,
        "pagination"@, "pagination-lg"@, "pagination-sm"@, "page-item"@, "page-link"@, "popover"@,
        "popover-header"@, "popover-body"@, "bs-popover-top"@, "bs-popover-end"@,
        "bs-popover-bottom"@, "bs-popover-start"@, "bs-popover-auto"@, "tooltip"@, "tooltip-inner"@,
        "bs-tooltip-top"@, "bs-tooltip-end"@, "bs-tooltip-bottom"@, "bs-tooltip-start"@,
        "bs-tooltip-auto"@, "progress"@, "progress-bar"@, "progress-bar-striped"@,
        "progress-bar-animated"@, "progress-stacked"@, "spinner-border"@, "spinner-border-sm"@,
        "spinner-grow"@, "spinner-grow-sm"@, "table"@, "table-sm"@, "table-bordered"@,
        "table-borderless"@, "table-striped"@, "table-striped-columns"@, "table-hover"@,
        "table-active"@, "table-dark"@, "table-group-divider"@, "table-primary"@,
        "table-secondary"@, "table-success"@, "table-danger"@, "table-warning"@, "table-info"@,
        "table-light"@, "table-responsive"@, "table-responsive-sm"@, "table-responsive-md"@,
        "table-responsive-lg"@, "table-responsive-xl"@, "table-responsive-xxl"@, "toast"@,
        "toast-header"@, "toast-body"@, "toast-container"@,
    ]
}

fn components_table() -> (r: &'static [&'static str])
    ensures
        str_views(r@) == components(),
{
    let r: &'static [&'static str] = &[
        "col", "col-auto", "col-1", "col-2", "col-3", "col-4", "col-5", "col-6", "col-7", "col-8",
        "col-9", "col-10", "col-11", "col-12", "col-sm", "col-sm-auto", "col-sm-1", "col-sm-2",
        "col-sm-3", "col-sm-4", "col-sm-5", "col-sm-6", "col-sm-7", "col-sm-8", "col-sm-9",
        "col-sm-10", "col-sm-11", "col-sm-12", "col-md", "col-md-auto", "col-md-1", "col-md-2",
        "col-md-3", "col-md-4", "col-md-5", "col-md-6", "col-md-7", "col-md-8", "col-md-9",
        "col-md-10", "col-md-11", "col-md-12", "col-lg", "col-lg-auto", "col-lg-1", "col-lg-2",
        "col-lg-3", "col-lg-4", "col-lg-5", "col-lg-6", "col-lg-7", "col-lg-8", "col-lg-9",
        "col-lg-10", "col-lg-11", "col-lg-12", "col-xl", "col-xl-auto", "col-xl-1", "col-xl-2",
        "col-xl-3", "col-xl-4", "col-xl-5", "col-xl-6", "col-xl-7", "col-xl-8", "col-xl-9",
        "col-xl-10", "col-xl-11", "col-xl-12", "col-xxl", "col-xxl-auto", "col-xxl-1", "col-xxl-2",
        "col-xxl-3", "col-xxl-4", "col-xxl-5", "col-xxl-6", "col-xxl-7", "col-xxl-8", "col-xxl-9",
        "col-xxl-10", "col-xxl-11", "col-xxl-12", "col-form-label", "col-form-label-lg",
        "col-form-label-sm", "row", "row-cols-1", "row-cols-2", "row-cols-3", "row-cols-4",
        "row-cols-5", "row-cols-6", "row-cols-auto", "row-cols-sm-1", "row-cols-sm-2",
        "row-cols-sm-3", "row-cols-sm-4", "row-cols-sm-5", "row-cols-sm-6", "row-cols-sm-auto",
        "row-cols-md-1", "row-cols-md-2", "row-cols-md-3", "row-cols-md-4", "row-cols-md-5",
        "row-cols-md-6", "row-cols-md-auto", "row-cols-lg-1", "row-cols-lg-2", "row-cols-lg-3",
        "row-cols-lg-4", "row-cols-lg-5", "row-cols-lg-6", "row-cols-lg-auto", "row-cols-xl-1",
        "row-cols-xl-2", "row-cols-xl-3", "row-cols-xl-4", "row-cols-xl-5", "row-cols-xl-6",
        "row-cols-xl-auto", "row-cols-xxl-1", "row-cols-xxl-2", "row-cols-xxl-3", "row-cols-xxl-4",
        "row-cols-xxl-5", "row-cols-xxl-6", "row-cols-xxl-auto", "container", "container-fluid",
        "container-sm", "container-md", "container-lg", "container-xl", "container-xxl", "offset-1",
        "offset-2", "offset-3", "offset-4", "offset-5", "offset-6", "offset-7", "offset-8",
        "offset-9", "offset-10", "offset-11", "offset-sm-0", "offset-sm-1", "offset-sm-2",
        "offset-sm-3", "offset-sm-4", "offset-sm-5", "offset-sm-6", "offset-sm-7", "offset-sm-8",
        "offset-sm-9", "offset-sm-10", "offset-sm-11", "offset-md-0", "offset-md-1", "offset-md-2",
        "offset-md-3", "offset-md-4", "offset-md-5", "offset-md-6", "offset-md-7", "offset-md-8",
        "offset-md-9", "offset-md-10", "offset-md-11", "offset-lg-0", "offset-lg-1", "offset-lg-2",
        "offset-lg-3", "offset-lg-4", "offset-lg-5", "offset-lg-6", "offset-lg-7", "offset-lg-8",
        "offset-lg-9", "offset-lg-10", "offset-lg-11", "offset-xl-0", "offset-xl-1", "offset-xl-2",
        "offset-xl-3", "offset-xl-4", "offset-xl-5", "offset-xl-6", "offset-xl-7", "offset-xl-8",
        "offset-xl-9", "offset-xl-10", "offset-xl-11", "offset-xxl-0", "offset-xxl-1",
        "offset-xxl-2", "offset-xxl-3", "offset-xxl-4", "offset-xxl-5", "offset-xxl-6",
        "offset-xxl-7", "offset-xxl-8", "offset-xxl-9", "offset-xxl-10", "offset-xxl-11", "active",
        "disabled", "show", "fade", "collapse", "collapsing", "collapse-horizontal", "is-valid",
        "is-invalid", "was-validated", "h1", "h2", "h3", "h4", "h5", "h6", "lead", "mark", "small",
        "initialism", "display-1", "display-2", "display-3", "display-4", "display-5", "display-6",
        "list-unstyled", "list-inline", "list-inline-item", "img-fluid", "img-thumbnail", "figure",
        "figure-img", "figure-caption", "btn", "btn-primary", "btn-secondary", "btn-success",
        "btn-danger", "btn-warning", "btn-info", "btn-light", "btn-dark", "btn-link",
        "btn-outline-primary", "btn-outline-secondary", "btn-outline-success", "btn-outline-danger",
        "btn-outline-warning", "btn-outline-info", "btn-outline-light", "btn-outline-dark",
        "btn-lg", "btn-sm", "btn-close", "btn-close-white", "btn-check", "btn-group",
        "btn-group-lg", "btn-group-sm", "btn-group-vertical", "btn-toolbar", "accordion",
        "accordion-item", "accordion-header", "accordion-button", "accordion-body",
        "accordion-flush", "alert", "alert-primary", "alert-secondary", "alert-success",
        "alert-danger", "alert-warning", "alert-info", "alert-light", "alert-dark",
        "alert-dismissible", "alert-link", "alert-heading", "badge", "breadcrumb",
        "breadcrumb-item", "breadcrumb-divider", "card", "card-body", "card-title", "card-subtitle",
        "card-text", "card-link", "card-header", "card-footer", "card-img", "card-img-top",
        "card-img-bottom", "card-img-overlay", "card-group", "card-header-tabs",
        "card-header-pills", "carousel", "carousel-inner", "carousel-item", "carousel-fade",
        "carousel-dark", "carousel-control-prev", "carousel-control-next",
        "carousel-control-prev-icon", "carousel-control-next-icon", "carousel-indicators",
        "carousel-caption", "dropdown", "dropdown-toggle", "dropdown-toggle-split", "dropdown-menu",
        "dropdown-item", "dropdown-header", "dropdown-divider", "dropdown-item-text",
        "dropdown-menu-dark", "dropdown-center", "dropdown-menu-start", "dropdown-menu-end",
        "dropdown-menu-sm-start", "dropdown-menu-sm-end", "dropdown-menu-md-start",
        "dropdown-menu-md-end", "dropdown-menu-lg-start", "dropdown-menu-lg-end",
        "dropdown-menu-xl-start", "dropdown-menu-xl-end", "dropdown-menu-xxl-start",
        "dropdown-menu-xxl-end", "dropup", "dropup-center", "dropend", "dropstart", "form-label",
        "form-control", "form-control-lg", "form-control-sm", "form-control-plaintext",
        "form-control-color", "form-text", "form-select", "form-select-lg", "form-select-sm",
        "form-check", "form-check-input", "form-check-label", "form-check-inline",
        "form-check-reverse", "form-switch", "form-range", "form-floating", "input-group",
        "input-group-lg", "input-group-sm", "input-group-text", "has-validation",
        "invalid-feedback", "valid-feedback", "invalid-tooltip", "valid-tooltip", "modal",
        "modal-dialog", "modal-content", "modal-header", "modal-title", "modal-body",
        "modal-footer", "modal-sm", "modal-lg", "modal-xl", "modal-fullscreen",
        "modal-fullscreen-sm-down", "modal-fullscreen-md-down", "modal-fullscreen-lg-down",
        "modal-fullscreen-xl-down", "modal-fullscreen-xxl-down", "modal-dialog-scrollable",
        "modal-dialog-centered", "modal-backdrop", "modal-open", "modal-static", "navbar",
        "navbar-brand", "navbar-toggler", "navbar-toggler-icon", "navbar-collapse", "navbar-nav",
        "navbar-nav-scroll", "navbar-text", "navbar-dark", "navbar-light", "navbar-expand",
        "navbar-expand-sm", "navbar-expand-md", "navbar-expand-lg", "navbar-expand-xl",
        "navbar-expand-xxl", "nav", "nav-link", "nav-tabs", "nav-pills", "nav-fill",
        "nav-justified", "nav-underline", "tab-content", "tab-pane", "offcanvas", "offcanvas-body",
        "offcanvas-header", "offcanvas-title", "offcanvas-start", "offcanvas-end", "offcanvas-top",
        "offcanvas-bottom", "offcanvas-sm", "offcanvas-md", "offcanvas-lg", "offcanvas-xl",
        "offcanvas-xxl", "pagination", "pagination-lg", "pagination-sm", "page-item", "page-link",
        "popover", "popover-header", "popover-body", "bs-popover-top", "bs-popover-end",
        "bs-popover-bottom", "bs-popover-start", "bs-popover-auto", "tooltip", "tooltip-inner",
        "bs-tooltip-top", "bs-tooltip-end", "bs-tooltip-bottom", "bs-tooltip-start",
        "bs-tooltip-auto", "progress", "progress-bar", "progress-bar-striped",
        "progress-bar-animated", "progress-stacked", "spinner-border", "spinner-border-sm",
        "spinner-grow", "spinner-grow-sm", "table", "table-sm", "table-bordered",
        "table-borderless", "table-striped", "table-striped-columns", "table-hover", "table-active",
        "table-dark", "table-group-divider", "table-primary", "table-secondary", "table-success",
        "table-danger", "table-warning", "table-info", "table-light", "table-responsive",
        "table-responsive-sm", "table-responsive-md", "table-responsive-lg", "table-responsive-xl",
        "table-responsive-xxl", "toast", "toast-header", "toast-body", "toast-container",
    ];
    assert(str_views(r@) =~= components());
    r
}
pub open spec fn head_d() -> Seq<Seq<char>> {
    seq!["d-"@]
}

fn head_d_table() -> (r: &'static [&'static str])
    ensures
        str_views(r@) == head_d(),
{
    let r: &'static [&'static str] = &["d-"];
    assert(str_views(r@) =~= head_d());
    r
}
pub open spec fn head_d_print() -> Seq<Seq<char>> {
    seq!["d-print-"@]
}

fn head_d_print_table() -> (r: &'static [&'static str])
    ensures
        str_views(r@) == head_d_print(),
{
    let r: &'static [&'static str] = &["d-print-"];
    assert(str_views(r@) =~= head_d_print());
    r
}
pub open spec fn margin_padding() -> Seq<Seq<char>> {
    seq!["m"@, "p"@]
}

fn margin_padding_table() -> (r: &'static [&'static str])
    ensures
        str_views(r@) == margin_padding(),
{
    let r: &'static [&'static str] = &["m", "p"];
    assert(str_views(r@) =~= margin_padding());
    r
}
pub open spec fn head_dash() -> Seq<Seq<char>> {
    seq!["-"@]
}

fn head_dash_table() -> (r: &'static [&'static str])
    ensures
        str_views(r@) == head_dash(),
{
    let r: &'static [&'static str] = &["-"];
    assert(str_views(r@) =~= head_dash());
    r
}
pub open spec fn spacing_scale() -> Seq<Seq<char>> {
    seq!["0"@, "1"@, "2"@, "3"@, "4"@, "5"@, "auto"@]
}

fn spacing_scale_table() -> (r: &'static [&'static str])
    ensures
        str_views(r@) == spacing_scale(),
{
    let r: &'static [&'static str] = &["0", "1", "2", "3", "4", "5", "auto"];
    assert(str_views(r@) =~= spacing_scale());
    r
}
pub open spec fn head_m() -> Seq<Seq<char>> {
    seq!["m"@]
}

fn head_m_table() -> (r: &'static [&'static str])
    ensures
        str_views(r@) == head_m(),
{
    let r: &'static [&'static str] = &["m"];
    assert(str_views(r@) =~= head_m());
    r
}
pub open spec fn negative_scale() -> Seq<Seq<char>> {
    seq!["n1"@, "n2"@, "n3"@, "n4"@, "n5"@]
}

fn negative_scale_table() -> (r: &'static [&'static str])
    ensures
        str_views(r@) == negative_scale(),
{
    let r: &'static [&'static str] = &["n1", "n2", "n3", "n4", "n5"];
    assert(str_views(r@) =~= negative_scale());
    r
}
pub open spec fn gap_kinds() -> Seq<Seq<char>> {
    seq!["gap-"@, "row-gap-"@, "column-gap-"@, "g-"@, "gx-"@, "gy-"@]
}

fn gap_kinds_table() -> (r: &'static [&'static str])
    ensures
        str_views(r@) == gap_kinds(),
{
    let r: &'static [&'static str] = &["gap-", "row-gap-", "column-gap-", "g-", "gx-", "gy-"];
    assert(str_views(r@) =~= gap_kinds());
    r
}
pub open spec fn head_flex() -> Seq<Seq<char>> {
    seq!["flex-"@]
}

fn head_flex_table() -> (r: &'static [&'static str])
    ensures
        str_views(r@) == head_flex(),
{
    let r: &'static [&'static str] = &["flex-"];
    assert(str_views(r@) =~= head_flex());
    r
}
pub open spec fn flex_values() -> Seq<Seq<char>> {
    seq![
        "row"@, "row-reverse"@, "column"@, "column-reverse"@, "wrap"@, "wrap-reverse"@, "nowrap"@,
        "fill"@,
    ]
}

fn flex_values_table() -> (r: &'static [&'static str])
    ensures
        str_views(r@) == flex_values(),
{
    let r: &'static [&'static str] = &[
        "row", "row-reverse", "column", "column-reverse", "wrap", "wrap-reverse", "nowrap", "fill",
    ];
    assert(str_views(r@) =~= flex_values());
    r
}
pub open spec fn grow_shrink() -> Seq<Seq<char>> {
    seq!["grow-"@, "shrink-"@]
}

fn grow_shrink_table() -> (r: &'static [&'static str])
    ensures
        str_views(r@) == grow_shrink(),
{
    let r: &'static [&'static str] = &["grow-", "shrink-"];
    assert(str_views(r@) =~= grow_shrink());
    r
}
pub open spec fn zero_one() -> Seq<Seq<char>> {
    seq!["0"@, "1"@]
}

fn zero_one_table() -> (r: &'static [&'static str])
    ensures
        str_views(r@) == zero_one(),
{
    let r: &'static [&'static str] = &["0", "1"];
    assert(str_views(r@) =~= zero_one());
    r
}
pub open spec fn head_align_items() -> Seq<Seq<char>> {
    seq!["align-items-"@]
}

fn head_align_items_table() -> (r: &'static [&'static str])
    ensures
        str_views(r@) == head_align_items(),
{
    let r: &'static [&'static str] = &["align-items-"];
    assert(str_views(r@) =~= head_align_items());
    r
}
pub open spec fn align_items_values() -> Seq<Seq<char>> {
    seq!["start"@, "end"@, "center"@, "baseline"@, "stretch"@]
}

fn align_items_values_table() -> (r: &'static [&'static str])
    ensures
        str_views(r@) == align_items_values(),
{
    let r: &'static [&'static str] = &["start", "end", "center", "baseline", "stretch"];
    assert(str_views(r@) =~= align_items_values());
    r
}
pub open spec fn head_align_self() -> Seq<Seq<char>> {
    seq!["align-self-"@]
}

fn head_align_self_table() -> (r: &'static [&'static str])
    ensures
        str_views(r@) == head_align_self(),
{
    let r: &'static [&'static str] = &["align-self-"];
    assert(str_views(r@) =~= head_align_self());
    r
}
pub open spec fn align_self_values() -> Seq<Seq<char>> {
    seq!["start"@, "end"@, "center"@, "baseline"@, "stretch"@, "auto"@]
}

fn align_self_values_table() -> (r: &'static [&'static str])
    ensures
        str_views(r@) == align_self_values(),
{
    let r: &'static [&'static str] = &["start", "end", "center", "baseline", "stretch", "auto"];
    assert(str_views(r@) =~= align_self_values());
    r
}
pub open spec fn head_justify_content() -> Seq<Seq<char>> {
    seq!["justify-content-"@]
}

fn head_justify_content_table() -> (r: &'static [&'static str])
    ensures
        str_views(r@) == head_justify_content(),
{
    let r: &'static [&'static str] = &["justify-content-"];
    assert(str_views(r@) =~= head_justify_content());
    r
}
pub open spec fn justify_values() -> Seq<Seq<char>> {
    seq!["start"@, "end"@, "center"@, "between"@, "around"@, "evenly"@]
}

fn justify_values_table() -> (r: &'static [&'static str])
    ensures
        str_views(r@) == justify_values(),
{
    let r: &'static [&'static str] = &["start", "end", "center", "between", "around", "evenly"];
    assert(str_views(r@) =~= justify_values());
    r
}
pub open spec fn head_order() -> Seq<Seq<char>> {
    seq!["order-"@]
}

fn head_order_table() -> (r: &'static [&'static str])
    ensures
        str_views(r@) == head_order(),
{
    let r: &'static [&'static str] = &["order-"];
    assert(str_views(r@) =~= head_order());
    r
}
pub open spec fn order_values() -> Seq<Seq<char>> {
    seq!["0"@, "1"@, "2"@, "3"@, "4"@, "5"@, "first"@, "last"@]
}

fn order_values_table() -> (r: &'static [&'static str])
    ensures
        str_views(r@) == order_values(),
{
    let r: &'static [&'static str] = &["0", "1", "2", "3", "4", "5", "first", "last"];
    assert(str_views(r@) =~= order_values());
    r
}
pub open spec fn head_float() -> Seq<Seq<char>> {
    seq!["float-"@]
}

fn head_float_table() -> (r: &'static [&'static str])
    ensures
        str_views(r@) == head_float(),
{
    let r: &'static [&'static str] = &["float-"];
    assert(str_views(r@) =~= head_float());
    r
}
pub open spec fn float_values() -> Seq<Seq<char>> {
    seq!["start"@, "end"@, "none"@]
}

fn float_values_table() -> (r: &'static [&'static str])
    ensures
        str_views(r@) == float_values(),
{
    let r: &'static [&'static str] = &["start", "end", "none"];
    assert(str_views(r@) =~= float_values());
    r
}
pub open spec fn head_object_fit() -> Seq<Seq<char>> {
    seq!["object-fit-"@]
}

fn head_object_fit_table() -> (r: &'static [&'static str])
    ensures
        str_views(r@) == head_object_fit(),
{
    let r: &'static [&'static str] = &["object-fit-"];
    assert(str_views(r@) =~= head_object_fit());
    r
}
pub open spec fn object_fit_values() -> Seq<Seq<char>> {
    seq!["contain"@, "cover"@, "fill"@, "scale"@, "none"@]
}

fn object_fit_values_table() -> (r: &'static [&'static str])
    ensures
        str_views(r@) == object_fit_values(),
{
    let r: &'static [&'static str] = &["contain", "cover", "fill", "scale", "none"];
    assert(str_views(r@) =~= object_fit_values());
    r
}
pub open spec fn head_text() -> Seq<Seq<char>> {
    seq!["text-"@]
}

fn head_text_table() -> (r: &'static [&'static str])
    ensures
        str_views(r@) == head_text(),
{
    let r: &'static [&'static str] = &["text-"];
    assert(str_views(r@) =~= head_text());
    r
}
pub open spec fn text_align_values() -> Seq<Seq<char>> {
    seq!["start"@, "center"@, "end"@]
}

fn text_align_values_table() -> (r: &'static [&'static str])
    ensures
        str_views(r@) == text_align_values(),
{
    let r: &'static [&'static str] = &["start", "center", "end"];
    assert(str_views(r@) =~= text_align_values());
    r
}
pub open spec fn text_values() -> Seq<Seq<char>> {
    seq![
        "wrap"@, "nowrap"@, "break"@, "truncate"@, "lowercase"@, "uppercase"@, "capitalize"@,
        "muted"@, "white"@, "black"@, "reset"@, "primary"@, "secondary"@, "success"@, "danger"@,
        "warning"@, "info"@, "light"@, "dark"@, "primary-emphasis"@, "secondary-emphasis"@,
        "success-emphasis"@, "danger-emphasis"@, "warning-emphasis"@, "info-emphasis"@,
        "light-emphasis"@, "dark-emphasis"@, "body"@, "body-secondary"@, "body-tertiary"@,
    ]
}

fn text_values_table() -> (r: &'static [&'static str])
    ensures
        str_views(r@) == text_values(),
{
    let r: &'static [&'static str] = &[
        "wrap", "nowrap", "break", "truncate", "lowercase", "uppercase", "capitalize", "muted",
        "white", "black", "reset", "primary", "secondary", "success", "danger", "warning", "info",
        "light", "dark", "primary-emphasis", "secondary-emphasis", "success-emphasis",
        "danger-emphasis", "warning-emphasis", "info-emphasis", "light-emphasis", "dark-emphasis",
        "body", "body-secondary", "body-tertiary",
    ];
    assert(str_views(r@) =~= text_values());
    r
}
pub open spec fn head_text_decoration() -> Seq<Seq<char>> {
    seq!["text-decoration-"@]
}

fn head_text_decoration_table() -> (r: &'static [&'static str])
    ensures
        str_views(r@) == head_text_decoration(),
{
    let r: &'static [&'static str] = &["text-decoration-"];
    assert(str_views(r@) =~= head_text_decoration());
    r
}
pub open spec fn decoration_values() -> Seq<Seq<char>> {
    seq!["none"@, "underline"@, "line-through"@]
}

fn decoration_values_table() -> (r: &'static [&'static str])
    ensures
        str_views(r@) == decoration_values(),
{
    let r: &'static [&'static str] = &["none", "underline", "line-through"];
    assert(str_views(r@) =~= decoration_values());
    r
}
pub open spec fn head_text_opacity() -> Seq<Seq<char>> {
    seq!["text-opacity-"@]
}

fn head_text_opacity_table() -> (r: &'static [&'static str])
    ensures
        str_views(r@) == head_text_opacity(),
{
    let r: &'static [&'static str] = &["text-opacity-"];
    assert(str_views(r@) =~= head_text_opacity());
    r
}
pub open spec fn text_opacity_values() -> Seq<Seq<char>> {
    seq!["25"@, "50"@, "75"@, "100"@]
}

fn text_opacity_values_table() -> (r: &'static [&'static str])
    ensures
        str_views(r@) == text_opacity_values(),
{
    let r: &'static [&'static str] = &["25", "50", "75", "100"];
    assert(str_views(r@) =~= text_opacity_values());
    r
}
pub open spec fn head_fw() -> Seq<Seq<char>> {
    seq!["fw-"@]
}

fn head_fw_table() -> (r: &'static [&'static str])
    ensures
        str_views(r@) == head_fw(),
{
    let r: &'static [&'static str] = &["fw-"];
    assert(str_views(r@) =~= head_fw());
    r
}
pub open spec fn weight_values() -> Seq<Seq<char>> {
    seq!["bold"@, "bolder"@, "semibold"@, "normal"@, "light"@, "lighter"@]
}

fn weight_values_table() -> (r: &'static [&'static str])
    ensures
        str_views(r@) == weight_values(),
{
    let r: &'static [&'static str] = &["bold", "bolder", "semibold", "normal", "light", "lighter"];
    assert(str_views(r@) =~= weight_values());
    r
}
pub open spec fn head_fst() -> Seq<Seq<char>> {
    seq!["fst-"@]
}

fn head_fst_table() -> (r: &'static [&'static str])
    ensures
        str_views(r@) == head_fst(),
{
    let r: &'static [&'static str] = &["fst-"];
    assert(str_views(r@) =~= head_fst());
    r
}
pub open spec fn font_style_values() -> Seq<Seq<char>> {
    seq!["italic"@, "normal"@]
}

fn font_style_values_table() -> (r: &'static [&'static str])
    ensures
        str_views(r@) == font_style_values(),
{
    let r: &'static [&'static str] = &["italic", "normal"];
    assert(str_views(r@) =~= font_style_values());
    r
}
pub open spec fn head_fs() -> Seq<Seq<char>> {
    seq!["fs-"@]
}

fn head_fs_table() -> (r: &'static [&'static str])
    ensures
        str_views(r@) == head_fs(),
{
    let r: &'static [&'static str] = &["fs-"];
    assert(str_views(r@) =~= head_fs());
    r
}
pub open spec fn font_size_values() -> Seq<Seq<char>> {
    seq!["1"@, "2"@, "3"@, "4"@, "5"@, "6"@]
}

fn font_size_values_table() -> (r: &'static [&'static str])
    ensures
        str_views(r@) == font_size_values(),
{
    let r: &'static [&'static str] = &["1", "2", "3", "4", "5", "6"];
    assert(str_views(r@) =~= font_size_values());
    r
}
pub open spec fn head_lh() -> Seq<Seq<char>> {
    seq!["lh-"@]
}

fn head_lh_table() -> (r: &'static [&'static str])
    ensures
        str_views(r@) == head_lh(),
{
    let r: &'static [&'static str] = &["lh-"];
    assert(str_views(r@) =~= head_lh());
    r
}
pub open spec fn line_height_values() -> Seq<Seq<char>> {
    seq!["1"@, "sm"@, "base"@, "lg"@]
}

fn line_height_values_table() -> (r: &'static [&'static str])
    ensures
        str_views(r@) == line_height_values(),
{
    let r: &'static [&'static str] = &["1", "sm", "base", "lg"];
    assert(str_views(r@) =~= line_height_values());
    r
}
pub open spec fn head_bg() -> Seq<Seq<char>> {
    seq!["bg-"@]
}

fn head_bg_table() -> (r: &'static [&'static str])
    ensures
        str_views(r@) == head_bg(),
{
    let r: &'static [&'static str] = &["bg-"];
    assert(str_views(r@) =~= head_bg());
    r
}
pub open spec fn background_values() -> Seq<Seq<char>> {
    seq![
        "primary"@, "secondary"@, "success"@, "danger"@, "warning"@, "info"@, "light"@, "dark"@,
        "white"@, "black"@, "transparent"@, "body"@, "body-secondary"@, "body-tertiary"@,
        "primary-subtle"@, "secondary-subtle"@, "success-subtle"@, "danger-subtle"@,
        "warning-subtle"@, "info-subtle"@, "light-subtle"@, "dark-subtle"@, "gradient"@,
    ]
}

fn background_values_table() -> (r: &'static [&'static str])
    ensures
        str_views(r@) == background_values(),
{
    let r: &'static [&'static str] = &[
        "primary", "secondary", "success", "danger", "warning", "info", "light", "dark", "white",
        "black", "transparent", "body", "body-secondary", "body-tertiary", "primary-subtle",
        "secondary-subtle", "success-subtle", "danger-subtle", "warning-subtle", "info-subtle",
        "light-subtle", "dark-subtle", "gradient",
    ];
    assert(str_views(r@) =~= background_values());
    r
}
pub open spec fn head_bg_opacity() -> Seq<Seq<char>> {
    seq!["bg-opacity-"@]
}

fn head_bg_opacity_table() -> (r: &'static [&'static str])
    ensures
        str_views(r@) == head_bg_opacity(),
{
    let r: &'static [&'static str] = &["bg-opacity-"];
    assert(str_views(r@) =~= head_bg_opacity());
    r
}
pub open spec fn head_border() -> Seq<Seq<char>> {
    seq!["border-"@]
}

fn head_border_table() -> (r: &'static [&'static str])
    ensures
        str_views(r@) == head_border(),
{
    let r: &'static [&'static str] = &["border-"];
    assert(str_views(r@) =~= head_border());
    r
}
pub open spec fn border_sides() -> Seq<Seq<char>> {
    seq![""@, "-top"@, "-end"@, "-bottom"@, "-start"@]
}

fn border_sides_table() -> (r: &'static [&'static str])
    ensures
        str_views(r@) == border_sides(),
{
    let r: &'static [&'static str] = &["", "-top", "-end", "-bottom", "-start"];
    assert(str_views(r@) =~= border_sides());
    r
}
pub open spec fn border_side_suffixes() -> Seq<Seq<char>> {
    seq![""@, "-0"@]
}

fn border_side_suffixes_table() -> (r: &'static [&'static str])
    ensures
        str_views(r@) == border_side_suffixes(),
{
    let r: &'static [&'static str] = &["", "-0"];
    assert(str_views(r@) =~= border_side_suffixes());
    r
}
pub open spec fn border_values() -> Seq<Seq<char>> {
    seq![
        "primary"@, "secondary"@, "success"@, "danger"@, "warning"@, "info"@, "light"@, "dark"@,
        "white"@, "black"@, "primary-subtle"@, "secondary-subtle"@, "success-subtle"@,
        "danger-subtle"@, "warning-subtle"@, "info-subtle"@, "light-subtle"@, "dark-subtle"@, "1"@,
        "2"@, "3"@, "4"@, "5"@,
    ]
}

fn border_values_table() -> (r: &'static [&'static str])
    ensures
        str_views(r@) == border_values(),
{
    let r: &'static [&'static str] = &[
        "primary", "secondary", "success", "danger", "warning", "info", "light", "dark", "white",
        "black", "primary-subtle", "secondary-subtle", "success-subtle", "danger-subtle",
        "warning-subtle", "info-subtle", "light-subtle", "dark-subtle", "1", "2", "3", "4", "5",
    ];
    assert(str_views(r@) =~= border_values());
    r
}
pub open spec fn head_border_opacity() -> Seq<Seq<char>> {
    seq!["border-opacity-"@]
}

fn head_border_opacity_table() -> (r: &'static [&'static str])
    ensures
        str_views(r@) == head_border_opacity(),
{
    let r: &'static [&'static str] = &["border-opacity-"];
    assert(str_views(r@) =~= head_border_opacity());
    r
}
pub open spec fn head_rounded() -> Seq<Seq<char>> {
    seq!["rounded-"@]
}

fn head_rounded_table() -> (r: &'static [&'static str])
    ensures
        str_views(r@) == head_rounded(),
{
    let r: &'static [&'static str] = &["rounded-"];
    assert(str_views(r@) =~= head_rounded());
    r
}
pub open spec fn rounded_values() -> Seq<Seq<char>> {
    seq![""@, "-circle"@, "-pill"@, "-0"@, "-1"@, "-2"@, "-3"@, "-4"@, "-5"@]
}

fn rounded_values_table() -> (r: &'static [&'static str])
    ensures
        str_views(r@) == rounded_values(),
{
    let r: &'static [&'static str] = &["", "-circle", "-pill", "-0", "-1", "-2", "-3", "-4", "-5"];
    assert(str_views(r@) =~= rounded_values());
    r
}
pub open spec fn corners() -> Seq<Seq<char>> {
    seq![
        "top"@, "end"@, "bottom"@, "start"@, "top-start"@, "top-end"@, "bottom-start"@,
        "bottom-end"@,
    ]
}

fn corners_table() -> (r: &'static [&'static str])
    ensures
        str_views(r@) == corners(),
{
    let r: &'static [&'static str] = &[
        "top", "end", "bottom", "start", "top-start", "top-end", "bottom-start", "bottom-end",
    ];
    assert(str_views(r@) =~= corners());
    r
}
pub open spec fn corner_suffixes() -> Seq<Seq<char>> {
    seq![""@, "-0"@, "-1"@, "-2"@, "-3"@, "-4"@, "-5"@]
}

fn corner_suffixes_table() -> (r: &'static [&'static str])
    ensures
        str_views(r@) == corner_suffixes(),
{
    let r: &'static [&'static str] = &["", "-0", "-1", "-2", "-3", "-4", "-5"];
    assert(str_views(r@) =~= corner_suffixes());
    r
}
pub open spec fn width_height() -> Seq<Seq<char>> {
    seq!["w-"@, "h-"@]
}

fn width_height_table() -> (r: &'static [&'static str])
    ensures
        str_views(r@) == width_height(),
{
    let r: &'static [&'static str] = &["w-", "h-"];
    assert(str_views(r@) =~= width_height());
    r
}
pub open spec fn size_values() -> Seq<Seq<char>> {
    seq!["25"@, "50"@, "75"@, "100"@, "auto"@]
}

fn size_values_table() -> (r: &'static [&'static str])
    ensures
        str_views(r@) == size_values(),
{
    let r: &'static [&'static str] = &["25", "50", "75", "100", "auto"];
    assert(str_views(r@) =~= size_values());
    r
}
pub open spec fn viewport_sizes() -> Seq<Seq<char>> {
    seq!["mw-100"@, "mh-100"@, "min-vw-100"@, "min-vh-100"@, "vw-100"@, "vh-100"@]
}

fn viewport_sizes_table() -> (r: &'static [&'static str])
    ensures
        str_views(r@) == viewport_sizes(),
{
    let r: &'static [&'static str] = &[
        "mw-100", "mh-100", "min-vw-100", "min-vh-100", "vw-100", "vh-100",
    ];
    assert(str_views(r@) =~= viewport_sizes());
    r
}
pub open spec fn head_position() -> Seq<Seq<char>> {
    seq!["position-"@]
}

fn head_position_table() -> (r: &'static [&'static str])
    ensures
        str_views(r@) == head_position(),
{
    let r: &'static [&'static str] = &["position-"];
    assert(str_views(r@) =~= head_position());
    r
}
pub open spec fn position_values() -> Seq<Seq<char>> {
    seq!["static"@, "relative"@, "absolute"@, "fixed"@, "sticky"@]
}

fn position_values_table() -> (r: &'static [&'static str])
    ensures
        str_views(r@) == position_values(),
{
    let r: &'static [&'static str] = &["static", "relative", "absolute", "fixed", "sticky"];
    assert(str_views(r@) =~= position_values());
    r
}
pub open spec fn edges() -> Seq<Seq<char>> {
    seq!["top-"@, "bottom-"@, "start-"@, "end-"@]
}

fn edges_table() -> (r: &'static [&'static str])
    ensures
        str_views(r@) == edges(),
{
    let r: &'static [&'static str] = &["top-", "bottom-", "start-", "end-"];
    assert(str_views(r@) =~= edges());
    r
}
pub open spec fn edge_values() -> Seq<Seq<char>> {
    seq!["0"@, "50"@, "100"@]
}

fn edge_values_table() -> (r: &'static [&'static str])
    ensures
        str_views(r@) == edge_values(),
{
    let r: &'static [&'static str] = &["0", "50", "100"];
    assert(str_views(r@) =~= edge_values());
    r
}
pub open spec fn head_translate_middle() -> Seq<Seq<char>> {
    seq!["translate-middle"@]
}

fn head_translate_middle_table() -> (r: &'static [&'static str])
    ensures
        str_views(r@) == head_translate_middle(),
{
    let r: &'static [&'static str] = &["translate-middle"];
    assert(str_views(r@) =~= head_translate_middle());
    r
}
pub open spec fn translate_suffixes() -> Seq<Seq<char>> {
    seq![""@, "-x"@, "-y"@]
}

fn translate_suffixes_table() -> (r: &'static [&'static str])
    ensures
        str_views(r@) == translate_suffixes(),
{
    let r: &'static [&'static str] = &["", "-x", "-y"];
    assert(str_views(r@) =~= translate_suffixes());
    r
}
pub open spec fn head_shadow() -> Seq<Seq<char>> {
    seq!["shadow"@]
}

fn head_shadow_table() -> (r: &'static [&'static str])
    ensures
        str_views(r@) == head_shadow(),
{
    let r: &'static [&'static str] = &["shadow"];
    assert(str_views(r@) =~= head_shadow());
    r
}
pub open spec fn shadow_suffixes() -> Seq<Seq<char>> {
    seq![""@, "-sm"@, "-lg"@, "-none"@]
}

fn shadow_suffixes_table() -> (r: &'static [&'static str])
    ensures
        str_views(r@) == shadow_suffixes(),
{
    let r: &'static [&'static str] = &["", "-sm", "-lg", "-none"];
    assert(str_views(r@) =~= shadow_suffixes());
    r
}
pub open spec fn head_opacity() -> Seq<Seq<char>> {
    seq!["opacity-"@]
}

fn head_opacity_table() -> (r: &'static [&'static str])
    ensures
        str_views(r@) == head_opacity(),
{
    let r: &'static [&'static str] = &["opacity-"];
    assert(str_views(r@) =~= head_opacity());
    r
}
pub open spec fn opacity_values() -> Seq<Seq<char>> {
    seq!["0"@, "25"@, "50"@, "75"@, "100"@]
}

fn opacity_values_table() -> (r: &'static [&'static str])
    ensures
        str_views(r@) == opacity_values(),
{
    let r: &'static [&'static str] = &["0", "25", "50", "75", "100"];
    assert(str_views(r@) =~= opacity_values());
    r
}
pub open spec fn head_overflow() -> Seq<Seq<char>> {
    seq!["overflow-"@]
}

fn head_overflow_table() -> (r: &'static [&'static str])
    ensures
        str_views(r@) == head_overflow(),
{
    let r: &'static [&'static str] = &["overflow-"];
    assert(str_views(r@) =~= head_overflow());
    r
}
pub open spec fn overflow_axes() -> Seq<Seq<char>> {
    seq![""@, "x-"@, "y-"@]
}

fn overflow_axes_table() -> (r: &'static [&'static str])
    ensures
        str_views(r@) == overflow_axes(),
{
    let r: &'static [&'static str] = &["", "x-", "y-"];
    assert(str_views(r@) =~= overflow_axes());
    r
}
pub open spec fn overflow_values() -> Seq<Seq<char>> {
    seq!["auto"@, "hidden"@, "visible"@, "scroll"@]
}

fn overflow_values_table() -> (r: &'static [&'static str])
    ensures
        str_views(r@) == overflow_values(),
{
    let r: &'static [&'static str] = &["auto", "hidden", "visible", "scroll"];
    assert(str_views(r@) =~= overflow_values());
    r
}
pub open spec fn visibility() -> Seq<Seq<char>> {
    seq!["visible"@, "invisible"@, "visually-hidden"@, "visually-hidden-focusable"@]
}

fn visibility_table() -> (r: &'static [&'static str])
    ensures
        str_views(r@) == visibility(),
{
    let r: &'static [&'static str] = &[
        "visible", "invisible", "visually-hidden", "visually-hidden-focusable",
    ];
    assert(str_views(r@) =~= visibility());
    r
}
pub open spec fn head_z() -> Seq<Seq<char>> {
    seq!["z-"@]
}

fn head_z_table() -> (r: &'static [&'static str])
    ensures
        str_views(r@) == head_z(),
{
    let r: &'static [&'static str] = &["z-"];
    assert(str_views(r@) =~= head_z());
    r
}
pub open spec fn z_values() -> Seq<Seq<char>> {
    seq!["n1"@, "0"@, "1"@, "2"@, "3"@]
}

fn z_values_table() -> (r: &'static [&'static str])
    ensures
        str_views(r@) == z_values(),
{
    let r: &'static [&'static str] = &["n1", "0", "1", "2", "3"];
    assert(str_views(r@) =~= z_values());
    r
}
pub open spec fn head_user_select() -> Seq<Seq<char>> {
    seq!["user-select-"@]
}

fn head_user_select_table() -> (r: &'static [&'static str])
    ensures
        str_views(r@) == head_user_select(),
{
    let r: &'static [&'static str] = &["user-select-"];
    assert(str_views(r@) =~= head_user_select());
    r
}
pub open spec fn user_select_values() -> Seq<Seq<char>> {
    seq!["all"@, "auto"@, "none"@]
}

fn user_select_values_table() -> (r: &'static [&'static str])
    ensures
        str_views(r@) == user_select_values(),
{
    let r: &'static [&'static str] = &["all", "auto", "none"];
    assert(str_views(r@) =~= user_select_values());
    r
}
pub open spec fn pointer_events() -> Seq<Seq<char>> {
    seq!["pe-none"@, "pe-auto"@]
}

fn pointer_events_table() -> (r: &'static [&'static str])
    ensures
        str_views(r@) == pointer_events(),
{
    let r: &'static [&'static str] = &["pe-none", "pe-auto"];
    assert(str_views(r@) =~= pointer_events());
    r
}
pub open spec fn head_align() -> Seq<Seq<char>> {
    seq!["align-"@]
}

fn head_align_table() -> (r: &'static [&'static str])
    ensures
        str_views(r@) == head_align(),
{
    let r: &'static [&'static str] = &["align-"];
    assert(str_views(r@) =~= head_align());
    r
}
pub open spec fn vertical_align_values() -> Seq<Seq<char>> {
    seq!["baseline"@, "top"@, "middle"@, "bottom"@, "text-top"@, "text-bottom"@]
}

fn vertical_align_values_table() -> (r: &'static [&'static str])
    ensures
        str_views(r@) == vertical_align_values(),
{
    let r: &'static [&'static str] = &[
        "baseline", "top", "middle", "bottom", "text-top", "text-bottom",
    ];
    assert(str_views(r@) =~= vertical_align_values());
    r
}
pub open spec fn head_link() -> Seq<Seq<char>> {
    seq!["link-"@]
}

fn head_link_table() -> (r: &'static [&'static str])
    ensures
        str_views(r@) == head_link(),
{
    let r: &'static [&'static str] = &["link-"];
    assert(str_views(r@) =~= head_link());
    r
}
pub open spec fn link_suffixes() -> Seq<Seq<char>> {
    seq![""@, "-emphasis"@]
}

fn link_suffixes_table() -> (r: &'static [&'static str])
    ensures
        str_views(r@) == link_suffixes(),
{
    let r: &'static [&'static str] = &["", "-emphasis"];
    assert(str_views(r@) =~= link_suffixes());
    r
}
pub open spec fn head_link_underline() -> Seq<Seq<char>> {
    seq!["link-underline-"@]
}

fn head_link_underline_table() -> (r: &'static [&'static str])
    ensures
        str_views(r@) == head_link_underline(),
{
    let r: &'static [&'static str] = &["link-underline-"];
    assert(str_views(r@) =~= head_link_underline());
    r
}
pub open spec fn link_helpers() -> Seq<Seq<char>> {
    seq!["stretched-link"@, "link-underline"@, "icon-link"@]
}

fn link_helpers_table() -> (r: &'static [&'static str])
    ensures
        str_views(r@) == link_helpers(),
{
    let r: &'static [&'static str] = &["stretched-link", "link-underline", "icon-link"];
    assert(str_views(r@) =~= link_helpers());
    r
}
pub open spec fn head_link_opacity() -> Seq<Seq<char>> {
    seq!["link-opacity-"@]
}

fn head_link_opacity_table() -> (r: &'static [&'static str])
    ensures
        str_views(r@) == head_link_opacity(),
{
    let r: &'static [&'static str] = &["link-opacity-"];
    assert(str_views(r@) =~= head_link_opacity());
    r
}
pub open spec fn head_link_offset() -> Seq<Seq<char>> {
    seq!["link-offset-"@]
}

fn head_link_offset_table() -> (r: &'static [&'static str])
    ensures
        str_views(r@) == head_link_offset(),
{
    let r: &'static [&'static str] = &["link-offset-"];
    assert(str_views(r@) =~= head_link_offset());
    r
}
pub open spec fn link_offset_values() -> Seq<Seq<char>> {
    seq!["1"@, "2"@, "3"@]
}

fn link_offset_values_table() -> (r: &'static [&'static str])
    ensures
        str_views(r@) == link_offset_values(),
{
    let r: &'static [&'static str] = &["1", "2", "3"];
    assert(str_views(r@) =~= link_offset_values());
    r
}
pub open spec fn head_text_bg() -> Seq<Seq<char>> {
    seq!["text-bg-"@]
}

fn head_text_bg_table() -> (r: &'static [&'static str])
    ensures
        str_views(r@) == head_text_bg(),
{
    let r: &'static [&'static str] = &["text-bg-"];
    assert(str_views(r@) =~= head_text_bg());
    r
}
pub open spec fn head_ratio() -> Seq<Seq<char>> {
    seq!["ratio"@]
}

fn head_ratio_table() -> (r: &'static [&'static str])
    ensures
        str_views(r@) == head_ratio(),
{
    let r: &'static [&'static str] = &["ratio"];
    assert(str_views(r@) =~= head_ratio());
    r
}
pub open spec fn ratio_suffixes() -> Seq<Seq<char>> {
    seq![""@, "-1x1"@, "-4x3"@, "-16x9"@, "-21x9"@]
}

fn ratio_suffixes_table() -> (r: &'static [&'static str])
    ensures
        str_views(r@) == ratio_suffixes(),
{
    let r: &'static [&'static str] = &["", "-1x1", "-4x3", "-16x9", "-21x9"];
    assert(str_views(r@) =~= ratio_suffixes());
    r
}
pub open spec fn rounded_word() -> Seq<Seq<char>> {
    seq!["rounded"@]
}

fn rounded_word_table() -> (r: &'static [&'static str])
    ensures
        str_views(r@) == rounded_word(),
{
    let r: &'static [&'static str] = &["rounded"];
    assert(str_views(r@) =~= rounded_word());
    r
}

pub open spec fn border_word() -> Seq<Seq<char>> {
    seq!["border"@]
}

fn border_word_table() -> (r: &'static [&'static str])
    ensures
        str_views(r@) == border_word(),
{
    let r: &'static [&'static str] = &["border"];
    assert(str_views(r@) =~= border_word());
    r
}

/// The Bootstrap 5.3 vocabulary: the component list, then each generated family, every
/// family the product of its tables (prefixes outermost).
pub open spec fn bootstrap5_vocabulary() -> Seq<Seq<char>> {
    Seq::empty()
        + components()
        + product(product(head_d(), breakpoint_infixes()), display_values())
        + product(head_d_print(), display_values())
        + product(product(product(product(margin_padding(), spacing_sides()), head_dash()), breakpoint_infixes()), spacing_scale())
        + product(product(product(product(head_m(), spacing_sides()), head_dash()), breakpoint_infixes()), negative_scale())
        + product(product(gap_kinds(), breakpoint_infixes()), scale_0_to_5())
        + product(product(head_flex(), breakpoint_infixes()), flex_values())
        + product(product(product(head_flex(), breakpoint_infixes()), grow_shrink()), zero_one())
        + product(product(head_align_items(), breakpoint_infixes()), align_items_values())
        + product(product(head_align_self(), breakpoint_infixes()), align_self_values())
        + product(product(head_justify_content(), breakpoint_infixes()), justify_values())
        + product(product(head_order(), breakpoint_infixes()), order_values())
        + product(product(head_float(), breakpoint_infixes()), float_values())
        + product(product(head_object_fit(), breakpoint_infixes()), object_fit_values())
        + product(product(head_text(), breakpoint_infixes()), text_align_values())
        + product(head_text(), text_values())
        + product(head_text_decoration(), decoration_values())
        + product(head_text_opacity(), text_opacity_values())
        + product(head_fw(), weight_values())
        + product(head_fst(), font_style_values())
        + product(head_fs(), font_size_values())
        + product(head_lh(), line_height_values())
        + product(head_bg(), background_values())
        + product(head_bg_opacity(), opacities())
        + product(product(border_word(), border_sides()), border_side_suffixes())
        + product(head_border(), border_values())
        + product(head_border_opacity(), opacities())
        + product(rounded_word(), rounded_values())
        + product(product(head_rounded(), corners()), corner_suffixes())
        + product(width_height(), size_values())
        + viewport_sizes()
        + product(head_position(), position_values())
        + product(edges(), edge_values())
        + product(head_translate_middle(), translate_suffixes())
        + product(head_shadow(), shadow_suffixes())
        + product(head_opacity(), opacity_values())
        + product(product(head_overflow(), overflow_axes()), overflow_values())
        + visibility()
        + product(head_z(), z_values())
        + product(head_user_select(), user_select_values())
        + pointer_events()
        + product(head_align(), vertical_align_values())
        + product(product(head_link(), colors()), link_suffixes())
        + product(head_link_underline(), colors())
        + link_helpers()
        + product(head_link_opacity(), opacities())
        + product(head_link_offset(), link_offset_values())
        + product(head_text_bg(), colors())
        + product(head_ratio(), ratio_suffixes())
}

/// Appends the names of `part` to `s`.
fn add_part(s: &mut Vec<String>, part: Vec<String>)
    ensures
        names_of(final(s)@) == names_of(old(s)@) + names_of(part@),
{
    let mut p = part;
    let ghost a = names_of(s@);
    let ghost b = names_of(p@);
    s.append(&mut p);
    assert(names_of(s@) =~= a + b);
}

/// Class names of the Bootstrap 5.3 framework (components, layout, and the generated utility
/// families), each name once.
#[verifier::rlimit(50)]
pub fn bootstrap5_classes() -> (r: Vec<String>)
    ensures
        names_of(r@).no_duplicates(),
        forall|x: Seq<char>| names_of(r@).contains(x) <==> bootstrap5_vocabulary().contains(x),
{
    let mut s: Vec<String> = Vec::new();
    assert(names_of(s@) =~= Seq::<Seq<char>>::empty());
    add_part(&mut s, words(components_table()));
    add_part(&mut s, cross(&cross(&words(head_d_table()), breakpoints()), display_values_table()));
    add_part(&mut s, cross(&words(head_d_print_table()), display_values_table()));
    add_part(&mut s, cross(&cross(&cross(&cross(&words(margin_padding_table()), spacing_sides_table()), head_dash_table()), breakpoints()), spacing_scale_table()));
    add_part(&mut s, cross(&cross(&cross(&cross(&words(head_m_table()), spacing_sides_table()), head_dash_table()), breakpoints()), negative_scale_table()));
    add_part(&mut s, cross(&cross(&words(gap_kinds_table()), breakpoints()), scale_0_to_5_table()));
    add_part(&mut s, cross(&cross(&words(head_flex_table()), breakpoints()), flex_values_table()));
    add_part(&mut s, cross(&cross(&cross(&words(head_flex_table()), breakpoints()), grow_shrink_table()), zero_one_table()));
    add_part(&mut s, cross(&cross(&words(head_align_items_table()), breakpoints()), align_items_values_table()));
    add_part(&mut s, cross(&cross(&words(head_align_self_table()), breakpoints()), align_self_values_table()));
    add_part(&mut s, cross(&cross(&words(head_justify_content_table()), breakpoints()), justify_values_table()));
    add_part(&mut s, cross(&cross(&words(head_order_table()), breakpoints()), order_values_table()));
    add_part(&mut s, cross(&cross(&words(head_float_table()), breakpoints()), float_values_table()));
    add_part(&mut s, cross(&cross(&words(head_object_fit_table()), breakpoints()), object_fit_values_table()));
    add_part(&mut s, cross(&cross(&words(head_text_table()), breakpoints()), text_align_values_table()));
    add_part(&mut s, cross(&words(head_text_table()), text_values_table()));
    add_part(&mut s, cross(&words(head_text_decoration_table()), decoration_values_table()));
    add_part(&mut s, cross(&words(head_text_opacity_table()), text_opacity_values_table()));
    add_part(&mut s, cross(&words(head_fw_table()), weight_values_table()));
    add_part(&mut s, cross(&words(head_fst_table()), font_style_values_table()));
    add_part(&mut s, cross(&words(head_fs_table()), font_size_values_table()));
    add_part(&mut s, cross(&words(head_lh_table()), line_height_values_table()));
    add_part(&mut s, cross(&words(head_bg_table()), background_values_table()));
    add_part(&mut s, cross(&words(head_bg_opacity_table()), opacities_table()));
    add_part(&mut s, cross(&cross(&words(border_word_table()), border_sides_table()), border_side_suffixes_table()));
    add_part(&mut s, cross(&words(head_border_table()), border_values_table()));
    add_part(&mut s, cross(&words(head_border_opacity_table()), opacities_table()));
    add_part(&mut s, cross(&words(rounded_word_table()), rounded_values_table()));
    add_part(&mut s, cross(&cross(&words(head_rounded_table()), corners_table()), corner_suffixes_table()));
    add_part(&mut s, cross(&words(width_height_table()), size_values_table()));
    add_part(&mut s, words(viewport_sizes_table()));
    add_part(&mut s, cross(&words(head_position_table()), position_values_table()));
    add_part(&mut s, cross(&words(edges_table()), edge_values_table()));
    add_part(&mut s, cross(&words(head_translate_middle_table()), translate_suffixes_table()));
    add_part(&mut s, cross(&words(head_shadow_table()), shadow_suffixes_table()));
    add_part(&mut s, cross(&words(head_opacity_table()), opacity_values_table()));
    add_part(&mut s, cross(&cross(&words(head_overflow_table()), overflow_axes_table()), overflow_values_table()));
    add_part(&mut s, words(visibility_table()));
    add_part(&mut s, cross(&words(head_z_table()), z_values_table()));
    add_part(&mut s, cross(&words(head_user_select_table()), user_select_values_table()));
    add_part(&mut s, words(pointer_events_table()));
    add_part(&mut s, cross(&words(head_align_table()), vertical_align_values_table()));
    add_part(&mut s, cross(&cross(&words(head_link_table()), colors_table()), link_suffixes_table()));
    add_part(&mut s, cross(&words(head_link_underline_table()), colors_table()));
    add_part(&mut s, words(link_helpers_table()));
    add_part(&mut s, cross(&words(head_link_opacity_table()), opacities_table()));
    add_part(&mut s, cross(&words(head_link_offset_table()), link_offset_values_table()));
    add_part(&mut s, cross(&words(head_text_bg_table()), colors_table()));
    add_part(&mut s, cross(&words(head_ratio_table()), ratio_suffixes_table()));
    distinct(s)
}

} // verus!
