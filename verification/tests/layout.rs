use website::app::site_config;
use website::components::layout::{
    copyright, html_class, nav_link_class, social_links_class, theme_on_click, theme_on_mount,
};
use website::site_config::{Image, Link};
use website::text::{decimal_string, signed_decimal_string, str_eq};

#[test]
fn link_to_the_page_shown_is_underlined() {
    assert_eq!(
        nav_link_class("/projects", "/projects"),
        "underline underline-offset-2 decoration-1 text-xl font-serif text-main hover:underline hover:underline-offset-2 hover:decoration-1 md:text-base"
    );
    assert_eq!(
        nav_link_class("/", "/projects"),
        "text-xl font-serif text-main hover:underline hover:underline-offset-2 hover:decoration-1 md:text-base"
    );
    assert_eq!(
        nav_link_class("/projects/", "/projects"),
        "text-xl font-serif text-main hover:underline hover:underline-offset-2 hover:decoration-1 md:text-base"
    );
}

#[test]
fn footer_row_turns_sideways_with_social_links() {
    assert_eq!(
        social_links_class(&Vec::new()),
        "pt-6 flex flex-col gap-4 border-t border-dashed border-main"
    );
    assert_eq!(
        social_links_class(&vec![Link::new("Mastodon", "https://tunahan.social")]),
        "pt-6 flex flex-col gap-4 border-t border-dashed border-main sm:flex-row-reverse sm:justify-between sm:items-center"
    );
}

#[test]
fn copyright_names_the_year() {
    assert_eq!(copyright(2024), "&copy; 2024&nbsp;");
    assert_eq!(copyright(0), "&copy; 0&nbsp;");
    assert_eq!(copyright(-44), "&copy; -44&nbsp;");
    assert_eq!(copyright(10000), "&copy; 10000&nbsp;");
}

#[test]
fn numbers_are_written_in_decimal() {
    assert_eq!(decimal_string(0), "0");
    assert_eq!(decimal_string(9), "9");
    assert_eq!(decimal_string(10), "10");
    assert_eq!(decimal_string(1234567890), "1234567890");
    assert_eq!(decimal_string(u32::MAX), "4294967295");
    assert_eq!(signed_decimal_string(i32::MAX), "2147483647");
    assert_eq!(signed_decimal_string(i32::MIN), "-2147483648");
    assert_eq!(signed_decimal_string(-1), "-1");
    assert_eq!(signed_decimal_string(-100), "-100");
}

#[test]
fn strings_are_compared_by_their_characters() {
    assert!(str_eq("", ""));
    assert!(str_eq("dark", "dark"));
    assert!(!str_eq("dark", "dar"));
    assert!(!str_eq("dark", "darK"));
    assert!(!str_eq("dark", "light"));
    assert!(str_eq("\u{e9}t\u{e9}", "\u{e9}t\u{e9}"));
    assert!(!str_eq("\u{e9}", "e\u{301}"));
}

#[test]
fn first_visit_takes_the_preferred_theme() {
    assert_eq!(theme_on_mount(None, true), Some("dark"));
    assert_eq!(theme_on_mount(None, false), Some("light"));
    assert_eq!(theme_on_mount(Some("light"), true), None);
    assert_eq!(theme_on_mount(Some("dark"), false), None);
    assert_eq!(theme_on_mount(Some(""), true), None);
}

#[test]
fn click_switches_between_light_and_dark() {
    assert_eq!(theme_on_click(Some("dark")), Some("light"));
    assert_eq!(theme_on_click(Some("light")), Some("dark"));
    assert_eq!(theme_on_click(Some("sepia")), Some("dark"));
    assert_eq!(theme_on_click(None), None);
    assert_eq!(theme_on_click(theme_on_click(Some("dark"))), Some("dark"));
    assert_eq!(theme_on_click(theme_on_click(Some("light"))), Some("light"));
}

#[test]
fn only_the_dark_theme_has_a_class() {
    assert_eq!(html_class(Some("dark")), "dark");
    assert_eq!(html_class(Some("light")), "");
    assert_eq!(html_class(Some("Dark")), "");
    assert_eq!(html_class(None), "");
}

#[test]
fn site_configuration_is_the_sites() {
    let config = site_config();
    assert_eq!(config.title, "Tuna");
    assert_eq!(config.subtitle, Some("Tuna's website".to_string()));
    assert_eq!(config.logo, None);
    assert_eq!(
        config.header_nav_links,
        vec![Link::new("Home", "/"), Link::new("Projects", "/projects")]
    );
    assert_eq!(
        config.footer_nav_links,
        vec![Link::new("About", "/about"), Link::new("Contact", "/contact")]
    );
    assert_eq!(
        config.social_links,
        vec![
            Link::new("Twitter", "https://twitter.com/dvtkrlbs"),
            Link::new("Mastodon", "https://tunahan.social"),
        ]
    );
}

#[test]
fn image_without_description_has_empty_alt() {
    let mut image = Image { src: "/logo.png".to_string(), alt: None, caption: None };
    assert_eq!(image.alt_text(), "");
    image.alt = Some("A tuna".to_string());
    assert_eq!(image.alt_text(), "A tuna");
    let link = Link::new("Home", "/");
    assert_eq!(link.text, "Home");
    assert_eq!(link.href, "/");
}
