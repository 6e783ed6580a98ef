//! Target addresses: the base URL of a run, and the address of one record.

use vstd::prelude::*;
use vstd::string::*;

verus! {

/// Whether `url` ends with the path separator `/`.
pub open spec fn ends_with_separator(url: Seq<char>) -> bool {
    url.len() > 0 && url.last() == '/'
}

/// The base URL as it is used for every record: `url` itself where it already ends
/// with a separator, otherwise `url` followed by one.
pub open spec fn normalized(url: Seq<char>) -> Seq<char> {
    if ends_with_separator(url) {
        url
    } else {
        url.push('/')
    }
}

/// The address of a record: the base followed by the record's identifier, and the
/// base alone for a record without one.
pub open spec fn address(base: Seq<char>, identifier: Option<Seq<char>>) -> Seq<char> {
    match identifier {
        Some(id) => base + id,
        None => base,
    }
}

/// The characters of an identifier that may be missing.
pub open spec fn characters(identifier: Option<&str>) -> Option<Seq<char>> {
    match identifier {
        Some(id) => Some(id@),
        None => None,
    }
}

/// The base URL of a run, given once at startup. It always ends with a separator.
/// Its view is its text.
#[derive(Debug)]
pub struct BaseUrl {
    text: String,
}

impl View for BaseUrl {
    type V = Seq<char>;

    closed spec fn view(&self) -> Seq<char> {
        self.text@
    }
}

impl BaseUrl {
    #[verifier::type_invariant]
    spec fn well_formed(&self) -> bool {
        ends_with_separator(self.text@)
    }

    /// Makes the base URL of a run from the address given at startup, adding the
    /// final separator where it is missing.
    pub fn new(url: &str) -> (base: BaseUrl)
        ensures
            base@ == normalized(url@),
    {
        let n: usize = url.unicode_len();
        let mut text = String::from_str(url);
        if n == 0 || url.get_char(n - 1) != '/' {
            proof {
                reveal_strlit("/");
            }
            text.append("/");
            assert(text@ == url@.push('/'));
        }
        BaseUrl { text }
    }

    /// The text of the base URL.
    pub fn as_str(&self) -> (text: &str)
        ensures
            text@ == self@,
            ends_with_separator(text@),
    {
        proof {
            use_type_invariant(self);
        }
        self.text.as_str()
    }

    /// The address to which a record with this identifier goes. Each address is
    /// built afresh from the base, which never changes.
    pub fn address(&self, identifier: Option<&str>) -> (target: String)
        ensures
            target@ == address(self@, characters(identifier)),
    {
        let mut target = self.text.clone();
        match identifier {
            Some(id) => {
                target.append(id);
            },
            None => {},
        }
        target
    }
}

/// Normalizing settles after one step: a normalized base ends with a separator,
/// and is left as it is when normalized again.
pub proof fn normalization_settles(url: Seq<char>)
    ensures
        ends_with_separator(normalized(url)),
        normalized(normalized(url)) == normalized(url),
{
}

/// With a base given without its final separator, a record with an identifier
/// goes to `url/identifier`, and a record without one to `url/`.
pub proof fn address_joins_with_one_separator(url: Seq<char>, id: Seq<char>)
    requires
        !ends_with_separator(url),
    ensures
        address(normalized(url), Some(id)) == url + seq!['/'] + id,
        address(normalized(url), None) == url + seq!['/'],
{
    assert(url.push('/') == url + seq!['/']);
}

} // verus!
