//! Origin keys: the remote endpoint group a URL belongs to, and the dense
//! numbering of such groups that the admission controller is keyed by.
//!
//! An origin's textual key comes from the `url` crate (the ASCII
//! serialization of the URL's origin, for example `https://example.net`);
//! the interner then maps each distinct key to a small stable index.

use vstd::prelude::*;

use crate::retry::DownloadError;

verus! {

/// Whether the `url` crate accepts this text as a URL.
pub uninterp spec fn url_parses(s: Seq<char>) -> bool;

/// The ASCII serialization of the origin of the URL written as `s`,
/// assuming `url_parses(s)`. A function of the text alone: tuple origins
/// (http, https, ftp, ws, wss) serialize as scheme://host[:port], every
/// opaque origin as the fixed text `null`.
pub uninterp spec fn origin_of(s: Seq<char>) -> Seq<char>;

#[verifier::external_type_specification]
#[verifier::external_body]
pub struct ExParseError(url::ParseError);

/// Relies on `url::Url::parse`, `url::Url::origin` and
/// `url::Origin::ascii_serialization`: parsing either fails or yields the
/// URL's origin, whose ASCII serialization depends only on the URL text
/// (an opaque origin is unique to itself, but always serializes as
/// `null`).
#[verifier::external_body]
fn parse_origin_text(s: &str) -> (r: Result<String, url::ParseError>)
    ensures
        r is Ok <==> url_parses(s@),
        r matches Ok(o) ==> o@ == origin_of(s@),
{
    match url::Url::parse(s) {
        Ok(u) => Ok(u.origin().ascii_serialization()),
        Err(e) => Err(e),
    }
}

/// The origin key of the URL written as `s`: its origin's ASCII
/// serialization, or `ParseError` exactly when the text is no URL.
pub fn origin_key_of(s: &str) -> (r: Result<String, DownloadError>)
    ensures
        r is Ok <==> url_parses(s@),
        r matches Ok(o) ==> o@ == origin_of(s@),
        r matches Err(e) ==> e == DownloadError::ParseError,
{
    match parse_origin_text(s) {
        Ok(o) => Ok(o),
        Err(_) => Err(DownloadError::ParseError),
    }
}

/// Maps textual origin keys to dense indices, first come first numbered:
/// the admission controller's partitions are a vector indexed by these.
#[derive(Debug)]
pub struct OriginInterner {
    pub keys: Vec<String>,
}

impl OriginInterner {
    /// No key is numbered twice.
    pub open spec fn wf(&self) -> bool {
        forall|i: int, j: int|
            0 <= i < j < self.keys@.len() ==> self.keys@[i]@ != self.keys@[j]@
    }

    pub fn new() -> (t: OriginInterner)
        ensures
            t.wf(),
            t.keys@.len() == 0,
    {
        OriginInterner { keys: Vec::new() }
    }

    /// The index of `key`, numbering it now if it is new: a known key gets
    /// its old index back and changes nothing; a new key is appended and
    /// gets the next index.
    pub fn intern(&mut self, key: String) -> (id: usize)
        requires
            old(self).wf(),
        ensures
            final(self).wf(),
            id < final(self).keys@.len(),
            final(self).keys@[id as int]@ == key@,
            (exists|j: int| 0 <= j < old(self).keys@.len() && old(self).keys@[j]@ == key@)
                ==> final(self).keys@ == old(self).keys@,
            (forall|j: int| 0 <= j < old(self).keys@.len() ==> old(self).keys@[j]@ != key@)
                ==> final(self).keys@ == old(self).keys@.push(key) && id == old(
                self,
            ).keys@.len(),
    {
        let n = self.keys.len();
        let mut i: usize = 0;
        while i < n
            invariant
                *self == *old(self),
                self.wf(),
                n == self.keys@.len(),
                i <= n,
                forall|j: int| 0 <= j < i ==> self.keys@[j]@ != key@,
            decreases n - i,
        {
            if self.keys[i] == key {
                return i;
            }
            i = i + 1;
        }
        self.keys.push(key);
        n
    }
}

} // verus!
