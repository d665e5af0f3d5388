//! The decisions of the base layout: which classes a navigation link and the
//! footer carry, what the copyright line says, and how the theme preference
//! moves between light and dark.

use crate::site_config::Link;
use crate::text::{signed_decimal, signed_decimal_string, str_eq};
use vstd::prelude::*;
use vstd::string::StringExecFns;

verus! {

/// The classes of every navigation link.
pub open spec fn nav_link_base() -> Seq<char> {
    "text-xl font-serif text-main hover:underline hover:underline-offset-2 hover:decoration-1 md:text-base"@
}

/// The classes of a navigation link, given the path of the page shown and
/// the link's address: a link to the page shown is underlined.
pub open spec fn nav_link_classes(pathname: Seq<char>, href: Seq<char>) -> Seq<char> {
    if pathname == href {
        "underline underline-offset-2 decoration-1 "@ + nav_link_base()
    } else {
        nav_link_base()
    }
}

/// The class list of a navigation link.
pub fn nav_link_class(pathname: &str, href: &str) -> (classes: String)
    ensures
        classes@ == nav_link_classes(pathname@, href@),
{
    let base: &'static str =
        "text-xl font-serif text-main hover:underline hover:underline-offset-2 hover:decoration-1 md:text-base";
    if str_eq(pathname, href) {
        String::from_str("underline underline-offset-2 decoration-1 ").concat(base)
    } else {
        String::from_str(base)
    }
}

/// The classes of the footer's lower row in any case.
pub open spec fn social_links_base() -> Seq<char> {
    "pt-6 flex flex-col gap-4 border-t border-dashed border-main"@
}

/// The classes of the footer's lower row: with social links to show, the
/// row is laid out sideways on wide screens.
pub open spec fn social_links_classes(links: nat) -> Seq<char> {
    if links == 0 {
        social_links_base()
    } else {
        social_links_base() + " sm:flex-row-reverse sm:justify-between sm:items-center"@
    }
}

/// The class list of the footer's lower row.
pub fn social_links_class(social_links: &Vec<Link>) -> (classes: String)
    ensures
        classes@ == social_links_classes(social_links@.len()),
{
    let base: String = String::from_str(
        "pt-6 flex flex-col gap-4 border-t border-dashed border-main",
    );
    if social_links.len() == 0 {
        base
    } else {
        base.concat(" sm:flex-row-reverse sm:justify-between sm:items-center")
    }
}

/// The start of the copyright line for a year.
pub open spec fn copyright_notice(year: int) -> Seq<char> {
    "&copy; "@ + signed_decimal(year) + "&nbsp;"@
}

/// The start of the copyright line, as markup, for the year given.
pub fn copyright(year: i32) -> (notice: String)
    ensures
        notice@ == copyright_notice(year as int),
{
    String::from_str("&copy; ").concat(signed_decimal_string(year).as_str()).concat("&nbsp;")
}

/// Whether a stored theme preference is the dark one.
pub open spec fn is_dark(theme: Option<Seq<char>>) -> bool {
    theme == Some("dark"@)
}

/// The characters of a preference that may be absent.
pub open spec fn theme_view(theme: Option<&str>) -> Option<Seq<char>> {
    match theme {
        Some(theme) => Some(theme@),
        None => None,
    }
}

/// The preference to store when the toggle appears: with none stored yet,
/// the one that the user agent prefers; otherwise nothing is written.
pub open spec fn stored_on_mount(theme: Option<Seq<char>>, prefers_dark: bool) -> Option<
    Seq<char>,
> {
    if theme is Some {
        None
    } else if prefers_dark {
        Some("dark"@)
    } else {
        Some("light"@)
    }
}

/// The preference to store when the toggle is pressed: light after dark,
/// dark after anything else, and nothing while no preference is stored.
pub open spec fn stored_on_click(theme: Option<Seq<char>>) -> Option<Seq<char>> {
    if theme is None {
        None
    } else if is_dark(theme) {
        Some("light"@)
    } else {
        Some("dark"@)
    }
}

/// The class of the document element for a stored preference.
pub open spec fn root_class(theme: Option<Seq<char>>) -> Seq<char> {
    if is_dark(theme) {
        "dark"@
    } else {
        ""@
    }
}

/// Whether the stored preference is the dark one.
fn dark(theme: Option<&str>) -> (yes: bool)
    ensures
        yes == is_dark(theme_view(theme)),
{
    match theme {
        Some(theme) => str_eq(theme, "dark"),
        None => false,
    }
}

/// What to store, if anything, when the toggle appears.
pub fn theme_on_mount(theme: Option<&str>, prefers_dark: bool) -> (stored: Option<&'static str>)
    ensures
        theme_view(stored) == stored_on_mount(theme_view(theme), prefers_dark),
{
    if theme.is_some() {
        None
    } else if prefers_dark {
        Some("dark")
    } else {
        Some("light")
    }
}

/// What to store, if anything, when the toggle is pressed.
pub fn theme_on_click(theme: Option<&str>) -> (stored: Option<&'static str>)
    ensures
        theme_view(stored) == stored_on_click(theme_view(theme)),
{
    if theme.is_none() {
        None
    } else if dark(theme) {
        Some("light")
    } else {
        Some("dark")
    }
}

/// The class of the document element.
pub fn html_class(theme: Option<&str>) -> (class: &'static str)
    ensures
        class@ == root_class(theme_view(theme)),
{
    if dark(theme) {
        "dark"
    } else {
        ""
    }
}

/// Pressing the toggle while a preference is stored changes whether the
/// page is dark, and pressing it twice from light or dark restores the
/// preference.
pub proof fn lemma_click_toggles(theme: Seq<char>)
    ensures
        is_dark(stored_on_click(Some(theme))) == !is_dark(Some(theme)),
        theme == "dark"@ || theme == "light"@ ==> stored_on_click(stored_on_click(Some(theme)))
            == Some(theme),
{
    reveal_strlit("dark");
    reveal_strlit("light");
    assert("dark"@ != "light"@) by {
        assert("light"@.len() == 5);
    }
}

/// When the toggle appears a preference is stored from then on.
pub proof fn lemma_mount_settles(theme: Option<Seq<char>>, prefers_dark: bool)
    ensures
        theme is None ==> stored_on_mount(theme, prefers_dark) is Some,
        theme is None ==> is_dark(stored_on_mount(theme, prefers_dark)) == prefers_dark,
        theme is Some ==> stored_on_mount(theme, prefers_dark) is None,
{
    reveal_strlit("dark");
    reveal_strlit("light");
    assert("dark"@ != "light"@) by {
        assert("light"@.len() == 5);
    }
}

} // verus!
