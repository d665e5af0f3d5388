//! The site itself: what its configuration holds.

use crate::site_config::{link_views, Link, LinkView, SiteConfig, SiteConfigView};
use vstd::prelude::*;

verus! {

/// The configuration of the site as a mathematical value.
pub open spec fn site() -> SiteConfigView {
    SiteConfigView {
        title: "Tuna"@,
        subtitle: Some("Tuna's website"@),
        logo: None,
        header_nav_links: seq![
            LinkView { text: "Home"@, href: "/"@ },
            LinkView { text: "Projects"@, href: "/projects"@ },
        ],
        social_links: seq![
            LinkView { text: "Twitter"@, href: "https://twitter.com/dvtkrlbs"@ },
            LinkView { text: "Mastodon"@, href: "https://tunahan.social"@ },
        ],
        footer_nav_links: seq![
            LinkView { text: "About"@, href: "/about"@ },
            LinkView { text: "Contact"@, href: "/contact"@ },
        ],
    }
}

/// Two links in a list.
fn pair(first: Link, second: Link) -> (links: Vec<Link>)
    ensures
        link_views(links@) == seq![first@, second@],
{
    let mut links: Vec<Link> = Vec::new();
    links.push(first);
    links.push(second);
    links
}

/// The configuration of the site: its title and subtitle, no logo, and the
/// links of the header, the footer and the social row.
pub fn site_config() -> (config: SiteConfig)
    ensures
        config@ == site(),
{
    SiteConfig {
        title: "Tuna".to_owned(),
        subtitle: Some("Tuna's website".to_owned()),
        logo: None,
        header_nav_links: pair(Link::new("Home", "/"), Link::new("Projects", "/projects")),
        footer_nav_links: pair(Link::new("About", "/about"), Link::new("Contact", "/contact")),
        social_links: pair(
            Link::new("Twitter", "https://twitter.com/dvtkrlbs"),
            Link::new("Mastodon", "https://tunahan.social"),
        ),
    }
}

} // verus!
