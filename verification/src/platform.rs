//! The decisions of the two platform converters: the Windows Imaging Component
//! path (EXIF orientation, output container, error text) and the macOS `sips`
//! path (its arguments and how its outcome is read).
//!
//! The image codecs and the `sips` process themselves are run by the caller.

use crate::text::{
    decimal, hex_digits, lemma_decimal_injective, push_decimal, push_hex_digits,
    same_text, strings_view,
};
use vstd::prelude::*;

verus! {

/// The container an image is written in.
#[derive(Debug, Clone, Copy, PartialEq, Eq)]
pub enum ImageEncoding {
    Png,
    Jpeg,
}

/// "png" is written as PNG; any other format as JPEG.
pub fn image_encoding(format: &str) -> (r: ImageEncoding)
    ensures
        r is Png <==> format@ == "png"@,
        r is Jpeg <==> format@ != "png"@,
{
    if same_text(format, "png") {
        ImageEncoding::Png
    } else {
        ImageEncoding::Jpeg
    }
}

/// A flip and/or rotation applied to the decoded image.
#[derive(Debug, Clone, Copy, PartialEq, Eq)]
pub enum FlipRotate {
    FlipHorizontal,
    Rotate180,
    FlipVertical,
    Rotate90FlipHorizontal,
    Rotate90,
    Rotate270FlipHorizontal,
    Rotate270,
}

/// The transform that puts a photo upright for its EXIF orientation tag.
/// Orientation 1 ("normal"), values outside 1..=8 and a missing tag need none.
pub open spec fn spec_orientation_transform(orientation: Option<u16>) -> Option<FlipRotate> {
    match orientation {
        Some(2) => Some(FlipRotate::FlipHorizontal),
        Some(3) => Some(FlipRotate::Rotate180),
        Some(4) => Some(FlipRotate::FlipVertical),
        Some(5) => Some(FlipRotate::Rotate90FlipHorizontal),
        Some(6) => Some(FlipRotate::Rotate90),
        Some(7) => Some(FlipRotate::Rotate270FlipHorizontal),
        Some(8) => Some(FlipRotate::Rotate270),
        _ => None,
    }
}

/// The transform for an EXIF orientation tag, if the photo needs one.
pub fn orientation_transform(orientation: Option<u16>) -> (r: Option<FlipRotate>)
    ensures
        r == spec_orientation_transform(orientation),
{
    match orientation {
        Some(2) => Some(FlipRotate::FlipHorizontal),
        Some(3) => Some(FlipRotate::Rotate180),
        Some(4) => Some(FlipRotate::FlipVertical),
        Some(5) => Some(FlipRotate::Rotate90FlipHorizontal),
        Some(6) => Some(FlipRotate::Rotate90),
        Some(7) => Some(FlipRotate::Rotate270FlipHorizontal),
        Some(8) => Some(FlipRotate::Rotate270),
        _ => None,
    }
}

/// The metadata queries for the orientation tag (274), in the order they are tried.
pub fn orientation_queries() -> (r: Vec<String>)
    ensures
        r@.len() == 2,
        r@[0]@ == "/ifd/{ushort=274}"@,
        r@[1]@ == "/app1/ifd/{ushort=274}"@,
{
    let mut v: Vec<String> = Vec::new();
    v.push(String::from_str("/ifd/{ushort=274}"));
    v.push(String::from_str("/app1/ifd/{ushort=274}"));
    v
}

/// What one metadata query gave.
#[derive(Debug, PartialEq, Eq)]
pub enum MetadataRead {
    /// The query failed.
    Unreadable,
    /// The query succeeded; the value if it is an unsigned 16-bit integer.
    Value(Option<u16>),
}

/// The orientation the first successful query gives, if any: later queries
/// are not looked at once one succeeded, even if its value has another type.
pub open spec fn spec_exif_orientation(reads: Seq<MetadataRead>) -> Option<u16>
    decreases reads.len(),
{
    if reads.len() == 0 {
        None
    } else {
        match reads[0] {
            MetadataRead::Value(v) => v,
            MetadataRead::Unreadable => spec_exif_orientation(reads.drop_first()),
        }
    }
}

/// What one query's result decides: `Some(tag)` when the query succeeded,
/// which ends the search with that tag (`None` if its value is not an unsigned
/// 16-bit integer); `None` when it failed, so the next query is to be run.
pub open spec fn spec_orientation_after_read(read: MetadataRead) -> Option<Option<u16>> {
    match read {
        MetadataRead::Value(v) => Some(v),
        MetadataRead::Unreadable => None,
    }
}

/// Tells, after one orientation query, whether to stop (with the tag found)
/// or to run the next query.
pub fn orientation_after_read(read: MetadataRead) -> (r: Option<Option<u16>>)
    ensures
        r == spec_orientation_after_read(read),
{
    match read {
        MetadataRead::Value(v) => Some(v),
        MetadataRead::Unreadable => None,
    }
}

/// The first query that succeeds decides the orientation: the queries after it
/// are not consulted, whatever they would give; a failed query defers to the rest.
pub proof fn lemma_first_answer_decides(read: MetadataRead, rest: Seq<MetadataRead>)
    ensures
        spec_exif_orientation(seq![read] + rest) == match spec_orientation_after_read(read) {
            Some(v) => v,
            None => spec_exif_orientation(rest),
        },
{
    assert((seq![read] + rest)[0] == read);
    assert((seq![read] + rest).drop_first() =~= rest);
}

/// Stopping at the first answer gives the orientation of all the queries:
/// the tag of the first successful query, or none if no query succeeds.
pub proof fn lemma_stop_at_first_answer(reads: Seq<MetadataRead>, k: int)
    requires
        0 <= k < reads.len(),
        spec_orientation_after_read(reads[k]) is Some,
        forall|j: int| 0 <= j < k ==> spec_orientation_after_read(#[trigger] reads[j]) is None,
    ensures
        spec_exif_orientation(reads) == spec_orientation_after_read(reads[k])->0,
    decreases k,
{
    if k > 0 {
        assert(reads.drop_first()[k - 1] == reads[k]);
        assert forall|j: int| 0 <= j < k - 1 implies spec_orientation_after_read(
            #[trigger] reads.drop_first()[j],
        ) is None by {
            assert(reads.drop_first()[j] == reads[j + 1]);
        }
        assert(spec_orientation_after_read(reads[0]) is None);
        lemma_stop_at_first_answer(reads.drop_first(), k - 1);
    }
}

/// When no query succeeds there is no orientation tag.
pub proof fn lemma_no_answer(reads: Seq<MetadataRead>)
    requires
        forall|j: int| 0 <= j < reads.len() ==> spec_orientation_after_read(#[trigger] reads[j]) is None,
    ensures
        spec_exif_orientation(reads) is None,
    decreases reads.len(),
{
    if reads.len() > 0 {
        assert(spec_orientation_after_read(reads[0]) is None);
        assert forall|j: int| 0 <= j < reads.drop_first().len() implies spec_orientation_after_read(
            #[trigger] reads.drop_first()[j],
        ) is None by {
            assert(reads.drop_first()[j] == reads[j + 1]);
        }
        lemma_no_answer(reads.drop_first());
    }
}

/// The HRESULT of WINCODEC_ERR_COMPONENTNOTFOUND: no codec for the image.
pub const COMPONENT_NOT_FOUND: u32 = 0x88982F50;

pub open spec fn codec_missing_message() -> Seq<char> {
    "No HEIC codec found. Install 'HEIF Image Extensions' and 'HEVC Video Extensions' from the Microsoft Store."@
}

/// The text shown for an imaging error: a missing codec gets advice on what to
/// install; any other error its own message and its code in eight hex digits.
pub open spec fn spec_imaging_error_message(code: u32, message: Seq<char>) -> Seq<char> {
    if code == COMPONENT_NOT_FOUND {
        codec_missing_message()
    } else {
        message + " (0x"@ + hex_digits(code as nat, 8) + ")"@
    }
}

/// The text for an imaging error with HRESULT bits `code` and message `message`.
pub fn imaging_error_message(code: u32, message: &str) -> (r: String)
    ensures
        r@ == spec_imaging_error_message(code, message@),
{
    if code == COMPONENT_NOT_FOUND {
        String::from_str(
            "No HEIC codec found. Install 'HEIF Image Extensions' and 'HEVC Video Extensions' from the Microsoft Store.",
        )
    } else {
        let mut s = String::from_str(message);
        s.append(" (0x");
        push_hex_digits(&mut s, code, 8);
        s.append(")");
        s
    }
}

/// The arguments of `sips` for one conversion: the target format, for JPEG the
/// quality, then the input and the output.
pub open spec fn spec_sips_arguments(
    input: Seq<char>,
    output: Seq<char>,
    format: Seq<char>,
    quality: u8,
) -> Seq<Seq<char>> {
    if format == "png"@ {
        seq!["-s"@, "format"@, "png"@, input, "--out"@, output]
    } else {
        seq!["-s"@, "format"@, "jpeg"@, "-s"@, "formatOptions"@, decimal(quality as nat), input, "--out"@, output]
    }
}

fn push_text(v: &mut Vec<String>, s: &str)
    ensures
        strings_view(final(v)@) == strings_view(old(v)@).push(s@),
{
    v.push(String::from_str(s));
    assert(strings_view(v@) =~= strings_view(old(v)@).push(s@));
}

/// The arguments to run `sips` with.
pub fn sips_arguments(input: &str, output: &str, format: &str, quality: u8) -> (r: Vec<String>)
    ensures
        strings_view(r@) == spec_sips_arguments(input@, output@, format@, quality),
{
    let mut v: Vec<String> = Vec::new();
    assert(strings_view(v@) =~= Seq::<Seq<char>>::empty());
    push_text(&mut v, "-s");
    push_text(&mut v, "format");
    if same_text(format, "png") {
        push_text(&mut v, "png");
    } else {
        push_text(&mut v, "jpeg");
        push_text(&mut v, "-s");
        push_text(&mut v, "formatOptions");
        let mut q = String::new();
        push_decimal(&mut q, quality as u64);
        assert(q@ =~= decimal(quality as nat));
        push_text(&mut v, q.as_str());
    }
    push_text(&mut v, input);
    push_text(&mut v, "--out");
    push_text(&mut v, output);
    assert(strings_view(v@) =~= spec_sips_arguments(input@, output@, format@, quality));
    v
}

/// What `String::from_utf8_lossy` makes of some bytes: the text they encode in
/// UTF-8, with each invalid sequence replaced by U+FFFD.
pub uninterp spec fn utf8_lossy(bytes: Seq<u8>) -> Seq<char>;

/// What `str::trim` makes of a text: the text without leading and trailing
/// Unicode white space.
pub uninterp spec fn trimmed(text: Seq<char>) -> Seq<char>;

/// Calls `String::from_utf8_lossy` on `bytes`. Claims that the result is
/// `utf8_lossy` of the bytes.
#[verifier::external_body]
fn lossy_text(bytes: &[u8]) -> (r: String)
    ensures
        r@ == utf8_lossy(bytes@),
{
    String::from_utf8_lossy(bytes).into_owned()
}

/// Whether `part` is a contiguous part of `whole`.
pub open spec fn is_part_of(part: Seq<char>, whole: Seq<char>) -> bool {
    exists|i: int, j: int| 0 <= i <= j <= whole.len() && part == whole.subrange(i, j)
}

/// Calls `str::trim` on `text`. Claims that the result is `trimmed` of the text
/// and, as the documentation says, a contiguous part of it.
#[verifier::external_body]
fn trim_text(text: &str) -> (r: &str)
    ensures
        r@ == trimmed(text@),
        is_part_of(r@, text@),
{
    text.trim()
}

/// How a `sips` run that ended is read: success, or its error output trimmed,
/// or a fixed message when that is empty.
pub open spec fn spec_sips_outcome(success: bool, stderr: Seq<u8>) -> Result<(), Seq<char>> {
    if success {
        Ok(())
    } else {
        let t = trimmed(utf8_lossy(stderr));
        if t.len() == 0 {
            Err("sips failed to convert this file"@)
        } else {
            Err(t)
        }
    }
}

pub open spec fn unit_result_view(r: Result<(), String>) -> Result<(), Seq<char>> {
    match r {
        Ok(()) => Ok(()),
        Err(e) => Err(e@),
    }
}

/// The outcome of a `sips` run that exited with `success` and wrote `stderr`.
pub fn sips_outcome(success: bool, stderr: &[u8]) -> (r: Result<(), String>)
    ensures
        unit_result_view(r) == spec_sips_outcome(success, stderr@),
{
    if success {
        Ok(())
    } else {
        let text = lossy_text(stderr);
        let t = trim_text(text.as_str());
        if t.unicode_len() == 0 {
            Err(String::from_str("sips failed to convert this file"))
        } else {
            Err(String::from_str(t))
        }
    }
}

/// The error when `sips` could not be started, for the reason given.
pub fn sips_launch_error(reason: &str) -> (r: String)
    ensures
        r@ == "Failed to run sips: "@ + reason@,
{
    let mut s = String::from_str("Failed to run sips: ");
    s.append(reason);
    s
}

/// `sips` converts `input` into `output`, in the format asked (PNG for "png",
/// JPEG otherwise), and for JPEG passes the quality exactly as given, in
/// decimal: it is neither clamped nor rounded.
pub proof fn lemma_sips_passes_quality(input: Seq<char>, output: Seq<char>, format: Seq<char>, quality: u8)
    ensures
        format == "png"@ ==> ({
            let a = spec_sips_arguments(input, output, format, quality);
            &&& a.len() == 6
            &&& a[2] == "png"@
            &&& a[3] == input
            &&& a[5] == output
        }),
        format != "png"@ ==> ({
            let a = spec_sips_arguments(input, output, format, quality);
            &&& a.len() == 9
            &&& a[2] == "jpeg"@
            &&& a[4] == "formatOptions"@
            &&& a[5] == decimal(quality as nat)
            &&& a[6] == input
            &&& a[8] == output
        }),
{
}

/// Two different JPEG qualities give different `sips` arguments, so the
/// quality chosen always reaches `sips`.
pub proof fn lemma_sips_quality_distinguishes(
    input: Seq<char>,
    output: Seq<char>,
    format: Seq<char>,
    q1: u8,
    q2: u8,
)
    requires
        format != "png"@,
        q1 != q2,
    ensures
        spec_sips_arguments(input, output, format, q1) != spec_sips_arguments(input, output, format, q2),
{
    if spec_sips_arguments(input, output, format, q1) == spec_sips_arguments(input, output, format, q2) {
        assert(spec_sips_arguments(input, output, format, q1)[5] == decimal(q1 as nat));
        assert(spec_sips_arguments(input, output, format, q2)[5] == decimal(q2 as nat));
        lemma_decimal_injective(q1 as nat, q2 as nat);
    }
}

/// A `sips` run that exited with success is a success, whatever it wrote to
/// its error output; a run that failed is always an error, with a non-empty
/// message: its trimmed error output when there is one.
pub proof fn lemma_sips_exit_status_decides(stderr: Seq<u8>)
    ensures
        spec_sips_outcome(true, stderr) == Ok::<(), Seq<char>>(()),
        spec_sips_outcome(false, stderr) matches Err(m) && m.len() > 0,
        trimmed(utf8_lossy(stderr)).len() > 0 ==> spec_sips_outcome(false, stderr) == Err::<(), Seq<char>>(
            trimmed(utf8_lossy(stderr)),
        ),
{
    reveal_strlit("sips failed to convert this file");
}

}
