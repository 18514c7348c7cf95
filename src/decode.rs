//! Locating a manifest inside a flash window and accepting a decoded record.
//!
//! Erased flash reads as `0xFF`. A manifest is written from the start of its
//! window and the rest of the window stays erased, so the encoded record is
//! what is left once the trailing `0xFF` bytes are cut off.

use vstd::prelude::*;
use crate::model::BitstreamManifest;

verus! {

/// The byte that erased flash reads as.
pub const ERASED: u8 = 0xFF;

/// Why a byte string is not a manifest.
#[derive(Clone, Copy, Debug, PartialEq, Eq, Structural)]
pub enum DecodeError {
    /// Not a valid instance of the schema: a syntax error, a missing field,
    /// or a field over its capacity.
    MalformedEncoding,
}

/// The length of `w` once its trailing erased bytes are cut off.
pub open spec fn retained_len(w: Seq<u8>) -> nat
    decreases w.len(),
{
    if w.len() == 0 {
        0
    } else if w.last() == ERASED {
        retained_len(w.drop_last())
    } else {
        w.len()
    }
}

/// Every byte of `w` is erased.
pub open spec fn all_erased(w: Seq<u8>) -> bool {
    forall|i: int| 0 <= i < w.len() ==> w[i] == ERASED
}

/// `n` erased bytes.
pub open spec fn erased_padding(n: nat) -> Seq<u8> {
    Seq::new(n, |_i: int| ERASED)
}

/// The bytes of `w` that are to be decoded, or `None` when `w` is all erased.
pub open spec fn payload_of(w: Seq<u8>) -> Option<Seq<u8>> {
    if retained_len(w) == 0 {
        None
    } else {
        Some(w.subrange(0, retained_len(w) as int))
    }
}

/// `retained_len(w)` is the index just past the last byte that is not erased.
pub proof fn lemma_retained_len(w: Seq<u8>)
    ensures
        retained_len(w) <= w.len(),
        forall|i: int| retained_len(w) <= i < w.len() ==> w[i] == ERASED,
        retained_len(w) > 0 ==> w[retained_len(w) - 1] != ERASED,
    decreases w.len(),
{
    if w.len() > 0 && w.last() == ERASED {
        lemma_retained_len(w.drop_last());
        assert forall|i: int| retained_len(w) <= i < w.len() implies w[i] == ERASED by {
            if i < w.len() - 1 {
                assert(w.drop_last()[i] == w[i]);
            }
        }
    }
}

/// A window is absent of any manifest exactly when it is all erased; this
/// includes the empty window.
pub proof fn lemma_erased_window_absent(w: Seq<u8>)
    ensures
        payload_of(w) is None <==> all_erased(w),
{
    lemma_retained_len(w);
    if retained_len(w) > 0 {
        assert(w[retained_len(w) - 1] != ERASED);
    }
}

/// An encoding that does not end in an erased byte, followed by any amount of
/// erased padding, yields exactly that encoding as the payload.
pub proof fn lemma_padding_tolerated(enc: Seq<u8>, pad: nat)
    requires
        enc.len() > 0,
        enc.last() != ERASED,
    ensures
        payload_of(enc + erased_padding(pad)) == Some(enc),
    decreases pad,
{
    let w = enc + erased_padding(pad);
    if pad == 0 {
        assert(w =~= enc);
        assert(w.subrange(0, enc.len() as int) =~= enc);
    } else {
        assert(w.last() == ERASED);
        assert(w.drop_last() =~= enc + erased_padding((pad - 1) as nat));
        lemma_padding_tolerated(enc, (pad - 1) as nat);
        lemma_retained_len(enc + erased_padding((pad - 1) as nat));
        assert(w.subrange(0, enc.len() as int) =~= enc);
    }
}

/// A window whose last byte is not erased is decoded whole, and when that
/// does not decode the window reads as absent.
pub proof fn lemma_corrupt_window_absent(w: Seq<u8>, e: DecodeError)
    requires
        w.len() > 0,
        w.last() != ERASED,
    ensures
        payload_of(w) == Some(w),
        accepted(Err(e)) is None,
{
    assert(w.subrange(0, w.len() as int) =~= w);
}

/// The number of leading bytes of `window` that hold the manifest, or `None`
/// when every byte of the window is erased.
pub fn payload_len(window: &[u8]) -> (r: Option<usize>)
    ensures
        r == (if retained_len(window@) == 0 {
            None::<usize>
        } else {
            Some(retained_len(window@) as usize)
        }),
        r is None <==> all_erased(window@),
        r matches Some(n) ==> 0 < n <= window@.len() && window@[n - 1] != ERASED
            && forall|i: int| n <= i < window@.len() ==> window@[i] == ERASED,
{
    let mut end: usize = window.len();
    proof {
        assert(window@.subrange(0, end as int) =~= window@);
    }
    while end > 0 && window[end - 1] == ERASED
        invariant
            end <= window@.len(),
            retained_len(window@.subrange(0, end as int)) == retained_len(window@),
            forall|i: int| end <= i < window@.len() ==> window@[i] == ERASED,
        decreases end,
    {
        proof {
            assert(window@.subrange(0, end as int).drop_last() =~= window@.subrange(0, end - 1));
        }
        end = end - 1;
    }
    proof {
        lemma_erased_window_absent(window@);
        lemma_retained_len(window@);
        if end > 0 {
            assert(window@.subrange(0, end as int).last() == window@[end - 1]);
        }
    }
    if end == 0 {
        None
    } else {
        Some(end)
    }
}

/// What the window decoder reports for the outcome `decoded` of decoding a
/// payload.
pub open spec fn accepted(decoded: Result<BitstreamManifest, DecodeError>) -> Option<BitstreamManifest> {
    match decoded {
        Ok(m) => if m.within_capacity() {
            Some(m)
        } else {
            None
        },
        Err(_) => None,
    }
}

impl BitstreamManifest {
    /// What the window decoder reports for the outcome of decoding a
    /// payload: the record when it decoded and every bounded field is within
    /// its capacity, and `None` otherwise. A corrupt payload thus reads the
    /// same as an erased window.
    pub fn accept_decoded(decoded: Result<BitstreamManifest, DecodeError>) -> (r: Option<BitstreamManifest>)
        ensures
            r == accepted(decoded),
    {
        match decoded {
            Ok(m) => {
                if m.check_capacity() {
                    Some(m)
                } else {
                    None
                }
            },
            Err(_) => None,
        }
    }

    /// Decodes the manifest held in a flash `window` that may be only partly
    /// written. Trailing erased bytes are cut off; an all-erased window holds
    /// no manifest and `decode` is not called. Otherwise `decode` is called
    /// once, on exactly the retained prefix, and its outcome is accepted as
    /// `accept_decoded` says: a prefix that does not decode reads as absent.
    pub fn from_window<F>(window: &[u8], decode: F) -> (r: Option<BitstreamManifest>)
        where
            F: Fn(&[u8]) -> Result<BitstreamManifest, DecodeError>,
        requires
            forall|p: &[u8]| #[trigger] decode.requires((p,)),
        ensures
            payload_of(window@) is None ==> r is None,
            payload_of(window@) matches Some(p) ==> exists|arg: &[u8], d: Result<BitstreamManifest, DecodeError>|
                arg@ == p && #[trigger] decode.ensures((arg,), d) && r == accepted(d),
    {
        match payload_len(window) {
            None => None,
            Some(n) => {
                let (payload, _) = window.split_at(n);
                let d = decode(payload);
                proof {
                    lemma_retained_len(window@);
                    assert(payload@ =~= payload_of(window@)->0);
                }
                Self::accept_decoded(d)
            },
        }
    }
}

} // verus!
