//! The resolved response: an ordered header list and a body that is either
//! buffered in memory or left to be streamed by the transport.

use vstd::prelude::*;
use crate::strutil::headers_view;

verus! {

/// A fully resolved response. `body` is `Some` when the object was read
/// whole (HTML, or below the small-body threshold); `None` means the caller
/// streams the object at write time.
#[derive(Clone)]
pub struct FileInfo {
    pub headers: Vec<(String, String)>,
    pub body: Option<Vec<u8>>,
}

/// The mathematical shape of a resolved response.
pub ghost struct FileInfoView {
    pub headers: Seq<(Seq<char>, Seq<char>)>,
    pub body: Option<Seq<u8>>,
}

impl View for FileInfo {
    type V = FileInfoView;

    open spec fn view(&self) -> FileInfoView {
        FileInfoView {
            headers: headers_view(self.headers@),
            body: match self.body {
                Some(b) => Some(b@),
                None => None,
            },
        }
    }
}

fn copy_bytes(v: &Vec<u8>) -> (r: Vec<u8>)
    ensures
        r@ == v@,
{
    let mut r: Vec<u8> = Vec::new();
    let mut i: usize = 0;
    while i < v.len()
        invariant
            0 <= i <= v@.len(),
            r@ == v@.take(i as int),
        decreases v@.len() - i,
    {
        r.push(v[i]);
        proof {
            assert(r@ =~= v@.take(i + 1));
        }
        i = i + 1;
    }
    proof {
        assert(v@.take(v@.len() as int) =~= v@);
    }
    r
}

impl FileInfo {
    /// A structural copy whose view is identical; the cache stores copies so
    /// that the returned response can be handed to the caller.
    pub fn duplicate(&self) -> (r: FileInfo)
        ensures
            r@ == self@,
    {
        let mut headers: Vec<(String, String)> = Vec::new();
        let mut i: usize = 0;
        while i < self.headers.len()
            invariant
                0 <= i <= self.headers@.len(),
                headers@.len() == i,
                forall|j: int|
                    0 <= j < i ==> (#[trigger] headers@[j]).0@ == self.headers@[j].0@
                        && headers@[j].1@ == self.headers@[j].1@,
            decreases self.headers@.len() - i,
        {
            let pair = &self.headers[i];
            headers.push((pair.0.clone(), pair.1.clone()));
            i = i + 1;
        }
        let body = match &self.body {
            Some(b) => Some(copy_bytes(b)),
            None => None,
        };
        let r = FileInfo { headers, body };
        proof {
            assert(headers_view(r.headers@) =~= headers_view(self.headers@));
        }
        r
    }
}

} // verus!
