//! Media-type selection from content sniffing.
//!
//! The host sniffs the stream head once without a name.  When that guess is
//! uncertain, or names the TIFF container (which may wrap a camera-raw
//! format), the head is sniffed again with the filename as a hint and the
//! hinted result decides.  A sniff that yields no media type fails with
//! [`Error::UnknownImageFormat`] carrying the content-type name it did yield.

use vstd::prelude::*;

use crate::config::MimeType;
use crate::error::Error;

verus! {

/// The media type of the TIFF container, `image/tiff`.
pub open spec fn tiff_mime() -> Seq<u8> {
    seq![105u8, 109u8, 97u8, 103u8, 101u8, 47u8, 116u8, 105u8, 102u8, 102u8]
}

fn tiff_mime_vec() -> (r: Vec<u8>)
    ensures
        r@ == tiff_mime(),
{
    let r = vec![105u8, 109u8, 97u8, 103u8, 101u8, 47u8, 116u8, 105u8, 102u8, 102u8];
    proof {
        assert(r@ =~= tiff_mime());
    }
    r
}

/// The byte string a sniffed media type stands for, when the sniff yielded
/// one.
pub open spec fn opt_mime_view(m: Option<MimeType>) -> Option<Seq<u8>> {
    match m {
        Some(v) => Some(v@),
        None => None,
    }
}

/// When the first, nameless sniff must be redone with the filename hint:
/// the guess was uncertain, or it names the TIFF container.
pub open spec fn resniff_needed(first_mime: Option<Seq<u8>>, uncertain: bool) -> bool {
    uncertain || first_mime == Some(tiff_mime())
}

/// Decides whether the filename-hinted sniff is needed.
pub fn needs_filename_resniff(first_mime: &Option<MimeType>, uncertain: bool) -> (r: bool)
    ensures
        r == resniff_needed(opt_mime_view(*first_mime), uncertain),
{
    if uncertain {
        return true;
    }
    match first_mime {
        Some(m) => {
            let tiff = tiff_mime_vec();
            crate::config::bytes_eq(m.as_slice(), tiff.as_slice())
        },
        None => false,
    }
}

/// What one sniff decides: the media type it yielded, or the unknown-format
/// error naming the content type it saw.
pub open spec fn sniff_outcome(r: Result<MimeType, Error>, mime: Option<Seq<u8>>, name: Seq<u8>)
    -> bool {
    match mime {
        Some(m) => r is Ok && r->Ok_0@ == m,
        None => r is Err && r->Err_0 is UnknownImageFormat
            && r->Err_0->UnknownImageFormat_0@ == name,
    }
}

/// Selects the media type of the image from the sniff results.
///
/// `first_mime` and `first_name` come from the nameless sniff: the media type
/// it yielded, if any, and the content-type name it saw.  `hinted` carries
/// the same pair from the filename-hinted sniff, when the file has a name and
/// that sniff was done.  The hinted result decides exactly when the first
/// sniff called for it ([`resniff_needed`]) and it is present; otherwise the
/// first result does, however the hint came out.
pub fn select_mime_type(
    first_mime: Option<MimeType>,
    first_name: MimeType,
    uncertain: bool,
    hinted: Option<(Option<MimeType>, MimeType)>,
) -> (r: Result<MimeType, Error>)
    ensures
        ({
            let needed = resniff_needed(opt_mime_view(first_mime), uncertain);
            match hinted {
                Some(h) => if needed {
                    sniff_outcome(r, opt_mime_view(h.0), h.1@)
                } else {
                    sniff_outcome(r, opt_mime_view(first_mime), first_name@)
                },
                None => sniff_outcome(r, opt_mime_view(first_mime), first_name@),
            }
        }),
{
    let use_hint = needs_filename_resniff(&first_mime, uncertain);
    let (mime, name) = if use_hint {
        match hinted {
            Some((hinted_mime, hinted_name)) => (hinted_mime, hinted_name),
            None => (first_mime, first_name),
        }
    } else {
        (first_mime, first_name)
    };
    match mime {
        Some(m) => Ok(m),
        None => Err(Error::UnknownImageFormat(name)),
    }
}

} // verus!
