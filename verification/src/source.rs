//! The known sources and each one's own conventions.

use vstd::prelude::*;
use vstd::string::*;
use crate::date::CalendarDate;

verus! {

/// A site that can supply the comic of a day.
#[derive(Clone, Copy, Debug, PartialEq, Eq, Structural)]
pub enum Source {
    /// The publisher's site: a document per day, the strip marked by a class.
    GoComic,
    /// The publisher's second host, with its own marker class and attribute.
    ProductionCentralus,
    /// An image host with a stable file name per day: nothing is fetched.
    Jikos,
}

/// The registry: every known source, once.
pub open spec fn all_sources() -> Seq<Source> {
    seq![Source::GoComic, Source::ProductionCentralus, Source::Jikos]
}

impl Source {
    /// Lists all known sources. The list is never empty and names no source twice.
    pub fn all() -> (sources: Vec<Source>)
        ensures
            sources@ == all_sources(),
            sources@.len() == 3,
            sources@.no_duplicates(),
            forall|s: Source| sources@.contains(s),
    {
        let sources = vec![Source::GoComic, Source::ProductionCentralus, Source::Jikos];
        proof {
            assert(sources@ =~= all_sources());
            assert forall|s: Source| sources@.contains(s) by {
                match s {
                    Source::GoComic => assert(sources@[0] == s),
                    Source::ProductionCentralus => assert(sources@[1] == s),
                    Source::Jikos => assert(sources@[2] == s),
                }
            }
        }
        sources
    }

    /// Whether the source answers only after a document was fetched from it.
    pub open spec fn spec_needs_fetch(self) -> bool {
        self != Source::Jikos
    }

    /// The scheme and host of the source's site.
    pub open spec fn spec_origin(self) -> Seq<char> {
        match self {
            Source::GoComic => "https://www.gocomics.com"@,
            Source::ProductionCentralus => "https://production.centralus.gocomics.com"@,
            Source::Jikos => "https://picayune.uclick.com"@,
        }
    }

    /// The path under which the source keeps the comic.
    pub open spec fn spec_slug(self) -> Seq<char> {
        match self {
            Source::GoComic => "/garfield/"@,
            Source::ProductionCentralus => "/garfield/"@,
            Source::Jikos => "/comics/ga/"@,
        }
    }

    /// The class that marks the element carrying the image reference.
    pub open spec fn spec_marker_class(self) -> Seq<char> {
        match self {
            Source::GoComic => "comic"@,
            Source::ProductionCentralus => "Comic_comic__image_strip__hPLFq"@,
            Source::Jikos => ""@,
        }
    }

    /// The attribute of the marked element that holds the image reference.
    pub open spec fn spec_image_attribute(self) -> Seq<char> {
        match self {
            Source::GoComic => "data-image"@,
            Source::ProductionCentralus => "src"@,
            Source::Jikos => ""@,
        }
    }

    /// The address made of the texts of a day: the full year, the
    /// slash-separated day and the compact day. The sources that are asked
    /// keep each day under its slash-separated form; the image host names
    /// the file by the compact form, in a directory named by the year.
    pub open spec fn spec_address(self, year: Seq<char>, slashed: Seq<char>, compact: Seq<char>)
        -> Seq<char> {
        match self {
            Source::Jikos => self.spec_origin() + self.spec_slug() + year + "/ga"@ + compact
                + ".gif"@,
            _ => self.spec_origin() + self.spec_slug() + slashed,
        }
    }

    /// The address that the source is asked at for the comic of `date`;
    /// for a source that needs no fetch, the address of the image itself.
    pub open spec fn spec_target(self, date: CalendarDate) -> Seq<char> {
        self.spec_address(date.text("%Y"@), date.text("%Y/%m/%d"@), date.text("%y%m%d"@))
    }

    #[verifier::when_used_as_spec(spec_needs_fetch)]
    pub fn needs_fetch(self) -> (needed: bool)
        ensures
            needed == self.spec_needs_fetch(),
    {
        match self {
            Source::Jikos => false,
            _ => true,
        }
    }

    pub fn origin(self) -> (text: &'static str)
        ensures
            text@ == self.spec_origin(),
    {
        match self {
            Source::GoComic => "https://www.gocomics.com",
            Source::ProductionCentralus => "https://production.centralus.gocomics.com",
            Source::Jikos => "https://picayune.uclick.com",
        }
    }

    pub fn slug(self) -> (text: &'static str)
        ensures
            text@ == self.spec_slug(),
    {
        match self {
            Source::GoComic => "/garfield/",
            Source::ProductionCentralus => "/garfield/",
            Source::Jikos => "/comics/ga/",
        }
    }

    pub fn marker_class(self) -> (text: &'static str)
        ensures
            text@ == self.spec_marker_class(),
    {
        match self {
            Source::GoComic => "comic",
            Source::ProductionCentralus => "Comic_comic__image_strip__hPLFq",
            Source::Jikos => "",
        }
    }

    pub fn image_attribute(self) -> (text: &'static str)
        ensures
            text@ == self.spec_image_attribute(),
    {
        match self {
            Source::GoComic => "data-image",
            Source::ProductionCentralus => "src",
            Source::Jikos => "",
        }
    }

    /// Builds the source's address from the texts of a day: the full
    /// year, the slash-separated day and the compact day.
    pub fn address(self, year: &str, slashed: &str, compact: &str) -> (url: String)
        ensures
            url@ == self.spec_address(year@, slashed@, compact@),
    {
        let mut url = String::from_str(self.origin());
        url.append(self.slug());
        match self {
            Source::Jikos => {
                url.append(year);
                url.append("/ga");
                url.append(compact);
                url.append(".gif");
            },
            _ => {
                url.append(slashed);
            },
        }
        url
    }

    /// Builds the address that the source is asked at for the comic of
    /// `date`; for a source that needs no fetch, the address of the image.
    pub fn target(self, date: &CalendarDate) -> (url: String)
        requires
            date.wf(),
        ensures
            url@ == self.spec_target(*date),
    {
        let year = date.format("%Y");
        let slashed = date.format("%Y/%m/%d");
        let compact = date.format("%y%m%d");
        self.address(year.as_str(), slashed.as_str(), compact.as_str())
    }
}

} // verus!
