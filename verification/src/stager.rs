//! The payload stager: turns the screenshots of a request, which arrive as
//! base64 text with or without a data-URL prefix, into the list of image files
//! that have to be written into the request's scratch directory.

use crate::bindings::{base64_standard_decoded, decode_standard, join_path, joined_path};
use crate::text::{decimal_string, decimal_text, texts};
use vstd::prelude::*;
use vstd::string::{StringExecFns, StringSliceAdditionalSpecFns};
use vstd::utf8::encode_utf8;

verus! {

/// The byte that ends a data-URL prefix.
pub const COMMA: u8 = 44;

/// How a blob that carries a data-URL prefix begins.
pub open spec fn data_url_marker() -> Seq<u8> {
    "data:image".spec_bytes()
}

/// `i` is the position of the first comma in `blob`.
pub open spec fn is_first_comma(blob: Seq<u8>, i: int) -> bool {
    &&& 0 <= i < blob.len()
    &&& blob[i] == COMMA
    &&& forall|j: int| 0 <= j < i ==> blob[j] != COMMA
}

/// The base64 payload of a blob.  A blob that begins with the data-URL marker
/// is cut after its first comma; one without the marker, or without a comma,
/// is payload as a whole.
pub open spec fn payload_of(blob: Seq<u8>) -> Seq<u8> {
    if data_url_marker().is_prefix_of(blob) && exists|i: int| is_first_comma(blob, i) {
        blob.skip((choose|i: int| is_first_comma(blob, i)) + 1)
    } else {
        blob
    }
}

/// The image that a blob decodes to, if it is well-formed base64.
pub open spec fn decoded_image(blob: Seq<char>) -> Option<Seq<u8>> {
    base64_standard_decoded(payload_of(encode_utf8(blob)))
}

/// The file name of the frame at zero-based position `index`.
pub open spec fn frame_file_name(index: nat) -> Seq<char> {
    "frame_"@ + decimal_text(index + 1) + ".jpg"@
}

/// A frame that decoded, ready to be written.
#[derive(Debug, Clone)]
pub struct DecodedFrame {
    /// Zero-based position of the frame among the blobs handed in.
    pub index: usize,
    /// Where in the scratch directory the image goes.
    pub path: String,
    /// The image itself.
    pub bytes: Vec<u8>,
}

/// Mathematical value of a [`DecodedFrame`].
pub ghost struct DecodedFrameView {
    pub index: nat,
    pub path: Seq<char>,
    pub bytes: Seq<u8>,
}

impl View for DecodedFrame {
    type V = DecodedFrameView;

    open spec fn view(&self) -> DecodedFrameView {
        DecodedFrameView { index: self.index as nat, path: self.path@, bytes: self.bytes@ }
    }
}

/// The views of a sequence of frames, in order.
pub open spec fn frame_views(v: Seq<DecodedFrame>) -> Seq<DecodedFrameView> {
    Seq::new(v.len(), |i: int| v[i]@)
}

/// A blob that is not well-formed base64.  The frame is left out; the request
/// goes on without it.
#[derive(Debug, Clone, Copy)]
pub struct FrameDecodeError {
    /// One-based number of the frame, as it appears in the file names.
    pub frame_number: usize,
}

/// What staging the first `n` blobs asks to be written: one file per blob
/// that decodes, in the order of the blobs, named after the blob's position.
pub open spec fn staging_plan_upto(frames: Seq<Seq<char>>, scratch_dir: Seq<char>, n: nat) -> Seq<
    DecodedFrameView,
>
    decreases n,
{
    if n == 0 {
        Seq::empty()
    } else {
        let earlier = staging_plan_upto(frames, scratch_dir, (n - 1) as nat);
        let index = (n - 1) as nat;
        match decoded_image(frames[index as int]) {
            Some(bytes) => earlier.push(
                DecodedFrameView {
                    index,
                    path: joined_path(scratch_dir, frame_file_name(index)),
                    bytes,
                },
            ),
            None => earlier,
        }
    }
}

/// The numbers of those among the first `n` blobs that do not decode, in the
/// order of the blobs.  Numbers count from one, as the file names do.
pub open spec fn rejected_upto(frames: Seq<Seq<char>>, n: nat) -> Seq<nat>
    decreases n,
{
    if n == 0 {
        Seq::empty()
    } else {
        let earlier = rejected_upto(frames, (n - 1) as nat);
        if decoded_image(frames[n - 1]).is_none() {
            earlier.push(n)
        } else {
            earlier
        }
    }
}

/// The numbers of the blobs among `frames` that do not decode.
pub open spec fn rejected_frames(frames: Seq<Seq<char>>) -> Seq<nat> {
    rejected_upto(frames, frames.len())
}

/// The frame numbers that a sequence of decode failures carries, in order.
pub open spec fn frame_numbers(v: Seq<FrameDecodeError>) -> Seq<nat> {
    Seq::new(v.len(), |i: int| v[i].frame_number as nat)
}

/// What staging all of `frames` asks to be written.
pub open spec fn staging_plan(frames: Seq<Seq<char>>, scratch_dir: Seq<char>) -> Seq<DecodedFrameView> {
    staging_plan_upto(frames, scratch_dir, frames.len())
}

fn has_data_url_marker(blob: &[u8]) -> (r: bool)
    ensures
        r == data_url_marker().is_prefix_of(blob@),
{
    let marker = "data:image".as_bytes();
    if marker.len() > blob.len() {
        return false;
    }
    let mut i: usize = 0;
    while i < marker.len()
        invariant
            marker@ == data_url_marker(),
            marker@.len() <= blob@.len(),
            i <= marker@.len(),
            forall|k: int| 0 <= k < i ==> marker@[k] == blob@[k],
        decreases marker@.len() - i,
    {
        if marker[i] != blob[i] {
            assert(blob@.subrange(0, marker@.len() as int)[i as int] != marker@[i as int]);
            return false;
        }
        i = i + 1;
    }
    assert(marker@ =~= blob@.subrange(0, marker@.len() as int));
    true
}

fn find_first_comma(blob: &[u8]) -> (r: Option<usize>)
    ensures
        match r {
            Some(i) => is_first_comma(blob@, i as int),
            None => forall|j: int| 0 <= j < blob@.len() ==> blob@[j] != COMMA,
        },
{
    let mut i: usize = 0;
    while i < blob.len()
        invariant
            i <= blob@.len(),
            forall|j: int| 0 <= j < i ==> blob@[j] != COMMA,
        decreases blob@.len() - i,
    {
        if blob[i] == COMMA {
            return Some(i);
        }
        i = i + 1;
    }
    None
}

/// Two first commas are one and the same.
proof fn lemma_first_comma_unique(blob: Seq<u8>, i: int, j: int)
    requires
        is_first_comma(blob, i),
        is_first_comma(blob, j),
    ensures
        i == j,
{
    if i < j {
        assert(blob[i] != COMMA);
    } else if j < i {
        assert(blob[j] != COMMA);
    }
}

/// Strips the data-URL prefix, if there is one, from a blob.
pub fn payload(blob: &[u8]) -> (r: &[u8])
    ensures
        r@ == payload_of(blob@),
{
    if !has_data_url_marker(blob) {
        return blob;
    }
    match find_first_comma(blob) {
        Some(i) => {
            proof {
                let c = choose|c: int| is_first_comma(blob@, c);
                lemma_first_comma_unique(blob@, i as int, c);
            }
            assert(i < blob.len());
            vstd::slice::slice_subrange(blob, i + 1, blob.len())
        },
        None => blob,
    }
}

/// The file name of the frame at zero-based position `index`.
pub fn frame_name(index: usize) -> (r: String)
    requires
        index < usize::MAX,
    ensures
        r@ == frame_file_name(index as nat),
{
    let mut name = String::from_str("frame_");
    let number = decimal_string(index + 1);
    name.append(number.as_str());
    name.append(".jpg");
    name
}

/// Makes a frame of what decoding the blob at position `index` gave: the
/// image at `path` where there is one, the frame's number where there is none.
pub fn place_frame(index: usize, path: String, decoded: Option<Vec<u8>>) -> (r: Result<
    DecodedFrame,
    FrameDecodeError,
>)
    requires
        index < usize::MAX,
    ensures
        match decoded {
            Some(bytes) => r matches Ok(frame) && frame@ == (DecodedFrameView {
                index: index as nat,
                path: path@,
                bytes: bytes@,
            }),
            None => r matches Err(e) && e.frame_number == index + 1,
        },
{
    match decoded {
        Some(bytes) => Ok(DecodedFrame { index, path, bytes }),
        None => Err(FrameDecodeError { frame_number: index + 1 }),
    }
}

/// Decodes the blob at zero-based position `index` and places it in
/// `scratch_dir` under the name that belongs to that position.
pub fn decode_frame(index: usize, blob: &str, scratch_dir: &str) -> (r: Result<
    DecodedFrame,
    FrameDecodeError,
>)
    requires
        index < usize::MAX,
    ensures
        match decoded_image(blob@) {
            Some(bytes) => r matches Ok(frame) && frame@ == (DecodedFrameView {
                index: index as nat,
                path: joined_path(scratch_dir@, frame_file_name(index as nat)),
                bytes,
            }),
            None => r matches Err(e) && e.frame_number == index + 1,
        },
{
    let decoded = match decode_standard(payload(blob.as_bytes())) {
        Ok(bytes) => Some(bytes),
        Err(_) => None,
    };
    let name = frame_name(index);
    place_frame(index, join_path(scratch_dir, name.as_str()), decoded)
}

/// Decodes every blob of a request and tells the two kinds apart: the
/// frames that decoded, ready to be written, and the failures of those that
/// did not.  Both keep the order of the blobs; a failure stops nothing.
pub fn stage_frames(frames: &Vec<String>, scratch_dir: &str) -> (r: (
    Vec<DecodedFrame>,
    Vec<FrameDecodeError>,
))
    ensures
        frame_views(r.0@) == staging_plan(texts(frames@), scratch_dir@),
        frame_numbers(r.1@) == rejected_frames(texts(frames@)),
{
    let mut staged: Vec<DecodedFrame> = Vec::new();
    let mut rejected: Vec<FrameDecodeError> = Vec::new();
    let mut i: usize = 0;
    while i < frames.len()
        invariant
            i <= frames.len(),
            frame_views(staged@) == staging_plan_upto(texts(frames@), scratch_dir@, i as nat),
            frame_numbers(rejected@) == rejected_upto(texts(frames@), i as nat),
        decreases frames.len() - i,
    {
        let ghost staged_before = staged@;
        let ghost rejected_before = rejected@;
        match decode_frame(i, frames[i].as_str(), scratch_dir) {
            Ok(frame) => {
                staged.push(frame);
                assert(frame_views(staged@) =~= frame_views(staged_before).push(frame@));
            },
            Err(e) => {
                rejected.push(e);
                assert(frame_numbers(rejected@) =~= frame_numbers(rejected_before).push(
                    e.frame_number as nat,
                ));
            },
        }
        i = i + 1;
    }
    (staged, rejected)
}

/// Decodes every blob of a request.  A blob that does not decode is left out
/// and the others keep their order and their names, so the list may be
/// shorter than `frames`, or empty.
pub fn decode_frames(frames: &Vec<String>, scratch_dir: &str) -> (r: Vec<DecodedFrame>)
    ensures
        frame_views(r@) == staging_plan(texts(frames@), scratch_dir@),
{
    stage_frames(frames, scratch_dir).0
}

/// A plan never asks for more files than blobs were looked at, and looking at
/// more blobs only ever adds to its end.
pub proof fn lemma_staging_plan_grows(frames: Seq<Seq<char>>, scratch_dir: Seq<char>, m: nat, n: nat)
    requires
        m <= n,
    ensures
        staging_plan_upto(frames, scratch_dir, m).len() <= m,
        staging_plan_upto(frames, scratch_dir, m).is_prefix_of(
            staging_plan_upto(frames, scratch_dir, n),
        ),
    decreases n,
{
    if m > 0 {
        lemma_staging_plan_grows(frames, scratch_dir, (m - 1) as nat, (m - 1) as nat);
    }
    if m < n {
        lemma_staging_plan_grows(frames, scratch_dir, m, (n - 1) as nat);
    }
}

/// Every file of a plan stands for a blob that decodes: it carries that
/// blob's position, the name that belongs to the position, and the decoded
/// image; and the files come in the order of their positions.
pub proof fn lemma_staging_plan_entries(frames: Seq<Seq<char>>, scratch_dir: Seq<char>, n: nat)
    ensures
        forall|k: int|
            0 <= k < staging_plan_upto(frames, scratch_dir, n).len() ==> {
                let entry = #[trigger] staging_plan_upto(frames, scratch_dir, n)[k];
                &&& entry.index < n
                &&& decoded_image(frames[entry.index as int]) == Some(entry.bytes)
                &&& entry.path == joined_path(scratch_dir, frame_file_name(entry.index))
            },
        forall|j: int, k: int|
            0 <= j < k < staging_plan_upto(frames, scratch_dir, n).len() ==> (
            #[trigger] staging_plan_upto(frames, scratch_dir, n)[j]).index < (
            #[trigger] staging_plan_upto(frames, scratch_dir, n)[k]).index,
    decreases n,
{
    if n > 0 {
        lemma_staging_plan_entries(frames, scratch_dir, (n - 1) as nat);
    }
}

/// Every blob that decodes has its file in the plan, and a blob that does
/// not has none: the plan holds exactly one file per decodable blob.
pub proof fn lemma_staging_plan_complete(frames: Seq<Seq<char>>, scratch_dir: Seq<char>, n: nat, i: nat)
    requires
        i < n,
    ensures
        decoded_image(frames[i as int]).is_some() <==> exists|k: int|
            0 <= k < staging_plan_upto(frames, scratch_dir, n).len() && (
            #[trigger] staging_plan_upto(frames, scratch_dir, n)[k]).index == i,
    decreases n,
{
    let plan = staging_plan_upto(frames, scratch_dir, n);
    let earlier = staging_plan_upto(frames, scratch_dir, (n - 1) as nat);
    lemma_staging_plan_entries(frames, scratch_dir, n);
    lemma_staging_plan_entries(frames, scratch_dir, (n - 1) as nat);
    if i == n - 1 {
        if decoded_image(frames[i as int]).is_some() {
            assert(plan[plan.len() - 1].index == i);
        }
    } else {
        lemma_staging_plan_complete(frames, scratch_dir, (n - 1) as nat, i);
        if decoded_image(frames[i as int]).is_some() {
            let k = choose|k: int| 0 <= k < earlier.len() && (#[trigger] earlier[k]).index == i;
            assert(plan[k].index == i);
        }
    }
}

/// Every blob is accounted for: it has its file in the plan or its number
/// among the rejected, never both and never neither.
pub proof fn lemma_staged_or_rejected(frames: Seq<Seq<char>>, scratch_dir: Seq<char>, n: nat)
    ensures
        staging_plan_upto(frames, scratch_dir, n).len() + rejected_upto(frames, n).len() == n,
        forall|k: int|
            0 <= k < rejected_upto(frames, n).len() ==> {
                let number = #[trigger] rejected_upto(frames, n)[k];
                1 <= number <= n && decoded_image(frames[number - 1]).is_none()
            },
    decreases n,
{
    if n > 0 {
        lemma_staged_or_rejected(frames, scratch_dir, (n - 1) as nat);
    }
}

} // verus!
