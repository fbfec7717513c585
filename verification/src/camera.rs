//! Frames kept from the camera: how their files are named.

use crate::text::{chars_of, decimal, push_decimal};
use vstd::prelude::*;
use vstd::string::StringExecFns;

verus! {

/// Whether `c` is an ASCII letter or digit.
pub open spec fn is_ascii_alphanumeric(c: char) -> bool {
    'a' <= c <= 'z' || 'A' <= c <= 'Z' || '0' <= c <= '9'
}

/// `c` where it is an ASCII letter or digit, else an underscore.
pub open spec fn safe_char(c: char) -> char {
    if is_ascii_alphanumeric(c) {
        c
    } else {
        '_'
    }
}

/// A label as it can stand in a file name: every character that is not an
/// ASCII letter or digit replaced by an underscore.
pub open spec fn safe_label(label: Seq<char>) -> Seq<char> {
    Seq::new(label.len(), |i: int| safe_char(label[i]))
}

/// The name of the file for a frame taken `ts_millis` milliseconds after the
/// epoch, with its label and its confidence as text.
pub open spec fn frame_name(ts_millis: u128, label: Seq<char>, confidence: Seq<char>) -> Seq<char> {
    "captures/"@ + decimal(ts_millis as nat) + seq!['_'] + safe_label(label) + seq!['_']
        + confidence + ".jpg"@
}

/// A label as it can stand in a file name.
pub fn sanitize_label(label: &str) -> (r: String)
    ensures
        r@ == safe_label(label@),
{
    let mut out = String::new();
    push_safe_label(&mut out, label);
    assert(Seq::<char>::empty() + safe_label(label@) =~= safe_label(label@));
    out
}

fn push_safe_label(out: &mut String, label: &str)
    ensures
        final(out)@ == old(out)@ + safe_label(label@),
{
    let chars = chars_of(label);
    let mut i: usize = 0;
    assert(out@ + safe_label(label@).take(0) =~= out@);
    while i < chars.len()
        invariant
            i <= chars.len(),
            chars@ == label@,
            out@ == old(out)@ + safe_label(label@).take(i as int),
        decreases chars.len() - i,
    {
        let c = chars[i];
        let keep = ('a' <= c && c <= 'z') || ('A' <= c && c <= 'Z') || ('0' <= c && c <= '9');
        out.push(if keep { c } else { '_' });
        assert(old(out)@ + safe_label(label@).take(i + 1) =~= (old(out)@ + safe_label(label@).take(
            i as int,
        )).push(safe_char(label@[i as int])));
        i += 1;
    }
    assert(safe_label(label@).take(chars.len() as int) =~= safe_label(label@));
}

/// The directory that holds the kept frames.
pub fn capture_dir() -> (dir: &'static str)
    ensures
        dir@ == "captures"@,
{
    "captures"
}

/// The name of the file for a detection frame.
pub fn detection_file_name(ts_millis: u128, label: &str, confidence: &str) -> (name: String)
    ensures
        name@ == frame_name(ts_millis, label@, confidence@),
{
    let mut name = "captures/".to_owned();
    push_decimal(&mut name, ts_millis);
    name.push('_');
    push_safe_label(&mut name, label);
    name.push('_');
    name.append(confidence);
    name.append(".jpg");
    name
}

} // verus!
