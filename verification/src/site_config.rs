//! The static configuration that the layout is drawn from.

use vstd::prelude::*;

verus! {

/// What the site shows around every page.
#[derive(Debug, Clone, PartialEq, Eq)]
pub struct SiteConfig {
    pub title: String,
    pub subtitle: Option<String>,
    pub logo: Option<Image>,
    pub header_nav_links: Vec<Link>,
    pub social_links: Vec<Link>,
    pub footer_nav_links: Vec<Link>,
}

/// An image with its description.
#[derive(Debug, Clone, PartialEq, Eq)]
pub struct Image {
    pub src: String,
    pub alt: Option<String>,
    pub caption: Option<String>,
}

/// A link: the words shown and the address they lead to.
#[derive(Debug, Clone, PartialEq, Eq)]
pub struct Link {
    pub text: String,
    pub href: String,
}

/// A link as a mathematical value.
pub struct LinkView {
    pub text: Seq<char>,
    pub href: Seq<char>,
}

/// An image as a mathematical value.
pub struct ImageView {
    pub src: Seq<char>,
    pub alt: Option<Seq<char>>,
    pub caption: Option<Seq<char>>,
}

/// A site configuration as a mathematical value.
pub struct SiteConfigView {
    pub title: Seq<char>,
    pub subtitle: Option<Seq<char>>,
    pub logo: Option<ImageView>,
    pub header_nav_links: Seq<LinkView>,
    pub social_links: Seq<LinkView>,
    pub footer_nav_links: Seq<LinkView>,
}

/// The characters of a string that may be absent.
pub open spec fn optional_text(text: Option<String>) -> Option<Seq<char>> {
    match text {
        Some(text) => Some(text@),
        None => None,
    }
}

/// The values of a list of links.
pub open spec fn link_views(links: Seq<Link>) -> Seq<LinkView> {
    links.map_values(|link: Link| link@)
}

impl View for Link {
    type V = LinkView;

    open spec fn view(&self) -> LinkView {
        LinkView { text: self.text@, href: self.href@ }
    }
}

impl View for Image {
    type V = ImageView;

    open spec fn view(&self) -> ImageView {
        ImageView {
            src: self.src@,
            alt: optional_text(self.alt),
            caption: optional_text(self.caption),
        }
    }
}

impl View for SiteConfig {
    type V = SiteConfigView;

    open spec fn view(&self) -> SiteConfigView {
        SiteConfigView {
            title: self.title@,
            subtitle: optional_text(self.subtitle),
            logo: match self.logo {
                Some(image) => Some(image@),
                None => None,
            },
            header_nav_links: link_views(self.header_nav_links@),
            social_links: link_views(self.social_links@),
            footer_nav_links: link_views(self.footer_nav_links@),
        }
    }
}

impl Link {
    /// A link with the given words and address.
    pub fn new(text: &str, href: &str) -> (link: Link)
        ensures
            link@ == (LinkView { text: text@, href: href@ }),
    {
        Link { text: text.to_owned(), href: href.to_owned() }
    }
}

impl Image {
    /// The text that stands in for the image where it cannot be shown: its
    /// description, or nothing where it has none.
    pub fn alt_text(&self) -> (text: String)
        ensures
            text@ == match self@.alt {
                Some(alt) => alt,
                None => Seq::<char>::empty(),
            },
    {
        match &self.alt {
            Some(alt) => alt.clone(),
            None => String::new(),
        }
    }
}

} // verus!
