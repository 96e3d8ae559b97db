//! Structured data (JSON-LD) for the page head.
//!
//! The two documents live in files that a server reads once, at start. Here
//! are the places to look for them, the choice among what the reads gave, and
//! the value that carries the chosen texts to whoever renders a page.

use vstd::prelude::*;
use vstd::string::StringExecFns;

verus! {

/// File name of the document that describes the site.
pub const WEBSITE_FILE: &'static str = "website.json";

/// File name of the document that describes its author.
pub const PERSON_FILE: &'static str = "person.json";

/// What stands in for a document that could not be read: an empty object.
pub const EMPTY_JSON_LD: &'static str = "{}";

/// The data directory, relative to the directory the server runs in.
pub const LOCAL_DIR: &'static str = "static/data/";

/// The data directory at the root of a container image.
pub const CONTAINER_DIR: &'static str = "/static/data/";

/// The data directory relative to the working directory, written with a
/// leading dot.
pub const RELATIVE_DIR: &'static str = "./static/data/";

/// The two documents, ready to be embedded.
#[derive(Debug)]
pub struct StructuredData {
    /// The document that describes the site.
    pub website: String,
    /// The document that describes its author.
    pub person: String,
}

/// A [`StructuredData`] with its texts as sequences of characters.
pub struct StructuredDataView {
    pub website: Seq<char>,
    pub person: Seq<char>,
}

impl View for StructuredData {
    type V = StructuredDataView;

    open spec fn view(&self) -> StructuredDataView {
        StructuredDataView { website: self.website@, person: self.person@ }
    }
}

/// Where a data file may be found, in the order in which to try.
pub open spec fn candidate_paths(filename: Seq<char>) -> Seq<Seq<char>> {
    seq![LOCAL_DIR@ + filename, CONTAINER_DIR@ + filename, RELATIVE_DIR@ + filename]
}

/// The first text among `attempts`, or the empty object where there is none.
pub open spec fn first_available(attempts: Seq<Option<Seq<char>>>) -> Seq<char>
    decreases attempts.len(),
{
    if attempts.len() == 0 {
        EMPTY_JSON_LD@
    } else {
        match attempts[0] {
            Some(content) => content,
            None => first_available(attempts.drop_first()),
        }
    }
}

/// The paths at which to try to read the data file `filename`.
pub fn json_ld_paths(filename: &str) -> (paths: Vec<String>)
    ensures
        paths.deep_view() == candidate_paths(filename@),
{
    let local = String::from_str(LOCAL_DIR).concat(filename);
    let container = String::from_str(CONTAINER_DIR).concat(filename);
    let relative = String::from_str(RELATIVE_DIR).concat(filename);
    let paths = vec![local, container, relative];
    assert(paths.deep_view() =~= candidate_paths(filename@));
    paths
}

/// Chooses the content of a data file from what reading each candidate path
/// gave, `None` standing for a read that failed: the first read that
/// succeeded counts, and with none the empty object takes its place.
pub fn read_json_ld_file(attempts: &Vec<Option<String>>) -> (content: String)
    ensures
        content@ == first_available(attempts.deep_view()),
{
    let ghost all = attempts.deep_view();
    let mut i: usize = 0;
    assert(all.skip(0) =~= all);
    while i < attempts.len()
        invariant
            i <= attempts.len(),
            all == attempts.deep_view(),
            first_available(all) == first_available(all.skip(i as int)),
        decreases attempts.len() - i,
    {
        assert(all.skip(i as int)[0] == all[i as int]);
        assert(all.skip(i as int).drop_first() =~= all.skip(i + 1));
        match &attempts[i] {
            Some(content) => {
                return content.clone();
            },
            None => {},
        }
        i = i + 1;
    }
    String::from_str(EMPTY_JSON_LD)
}

impl Clone for StructuredData {
    fn clone(&self) -> (copy: Self)
        ensures
            copy@ == self@,
    {
        StructuredData { website: self.website.clone(), person: self.person.clone() }
    }
}

impl StructuredData {
    /// Builds the value from what the reads of the two files gave.
    pub fn load(website: &Vec<Option<String>>, person: &Vec<Option<String>>) -> (data: Self)
        ensures
            data@.website == first_available(website.deep_view()),
            data@.person == first_available(person.deep_view()),
    {
        StructuredData { website: read_json_ld_file(website), person: read_json_ld_file(person) }
    }
}

/// The document that describes the site.
pub fn get_website_json_ld(data: &StructuredData) -> (content: String)
    ensures
        content@ == data@.website,
{
    data.website.clone()
}

/// The document that describes the author.
pub fn get_person_json_ld(data: &StructuredData) -> (content: String)
    ensures
        content@ == data@.person,
{
    data.person.clone()
}

/// The choice falls on the earliest read that succeeded.
pub proof fn lemma_first_available_is_earliest(attempts: Seq<Option<Seq<char>>>, at: int)
    requires
        0 <= at < attempts.len(),
        attempts[at] is Some,
        forall|j: int| 0 <= j < at ==> attempts[j] is None,
    ensures
        first_available(attempts) == attempts[at]->0,
    decreases attempts.len(),
{
    if at > 0 {
        let rest = attempts.drop_first();
        assert(attempts[0] is None);
        assert(rest[at - 1] == attempts[at]);
        assert forall|j: int| 0 <= j < at - 1 implies rest[j] is None by {
            assert(rest[j] == attempts[j + 1]);
        }
        lemma_first_available_is_earliest(rest, at - 1);
    }
}

/// With no read that succeeded, the empty object is chosen.
pub proof fn lemma_first_available_default(attempts: Seq<Option<Seq<char>>>)
    requires
        forall|j: int| 0 <= j < attempts.len() ==> attempts[j] is None,
    ensures
        first_available(attempts) == EMPTY_JSON_LD@,
    decreases attempts.len(),
{
    if attempts.len() > 0 {
        let rest = attempts.drop_first();
        assert(attempts[0] is None);
        assert forall|j: int| 0 <= j < rest.len() implies rest[j] is None by {
            assert(rest[j] == attempts[j + 1]);
        }
        lemma_first_available_default(rest);
    }
}

} // verus!
