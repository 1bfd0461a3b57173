//! The playlist encoder: entries written out as an mpv edit-decision list.
//!
//! The document is a header line and one line for each entry,
//! `%<length>%<path>,<start>,<clip length>`, where `<length>` counts the
//! bytes of the path in UTF-8. A reader that knows the length takes the path
//! whole, whatever characters it holds.

use crate::decimal::{decimal, push_decimal};
use crate::entry::{EntryModel, VideoEntry};
use vstd::prelude::*;
use vstd::string::*;
use vstd::utf8::encode_utf8;

verus! {

/// The line that opens every document and names its format.
pub open spec fn header_line() -> Seq<char> {
    seq!['#', ' ', 'm', 'p', 'v', ' ', 'E', 'D', 'L', ' ', 'v', '0', '\n']
}

/// A path behind its length prefix: `%`, the number of bytes of the path,
/// `%`, and the path itself.
pub open spec fn escaped_path(path: Seq<char>) -> Seq<char> {
    seq!['%'] + decimal(encode_utf8(path).len()) + seq!['%'] + path
}

/// The line of one entry, with the line feed that ends it.
pub open spec fn entry_line(entry: EntryModel) -> Seq<char> {
    escaped_path(entry.path) + seq![','] + decimal(entry.clip_start) + seq![','] + decimal(
        entry.clip_length,
    ) + seq!['\n']
}

/// The lines of `entries`, in their order.
pub open spec fn entry_lines(entries: Seq<EntryModel>) -> Seq<char>
    decreases entries.len(),
{
    if entries.len() == 0 {
        Seq::empty()
    } else {
        entry_lines(entries.drop_last()) + entry_line(entries.last())
    }
}

/// The whole document: the header line, then the lines of `entries`.
pub open spec fn document(entries: Seq<EntryModel>) -> Seq<char> {
    header_line() + entry_lines(entries)
}

/// What each of `entries` stands for, in the same order.
pub open spec fn models(entries: Seq<VideoEntry>) -> Seq<EntryModel> {
    Seq::new(entries.len(), |i: int| entries[i]@)
}

/// Appends the escaped form of `path` to `out`.
pub fn push_escaped_path(out: &mut String, path: &str)
    ensures
        final(out)@ == old(out)@ + escaped_path(path@),
{
    let length = path.as_bytes().len();
    out.append("%");
    push_decimal(out, length as u64);
    out.append("%");
    out.append(path);
    proof {
        reveal_strlit("%");
        assert("%"@ =~= seq!['%']);
        assert(final(out)@ =~= old(out)@ + escaped_path(path@));
    }
}

/// Escapes `path` for a playlist line.
pub fn path_to_edl(path: &str) -> (escaped: String)
    ensures
        escaped@ == escaped_path(path@),
{
    let mut escaped = String::new();
    push_escaped_path(&mut escaped, path);
    assert(escaped@ =~= escaped_path(path@));
    escaped
}

/// Appends the line of `entry` to `out`.
pub fn push_entry_line(out: &mut String, entry: &VideoEntry)
    ensures
        final(out)@ == old(out)@ + entry_line(entry@),
{
    push_escaped_path(out, entry.path());
    out.append(",");
    push_decimal(out, entry.clip_start_seconds());
    out.append(",");
    push_decimal(out, entry.clip_length_seconds());
    out.append("\n");
    proof {
        reveal_strlit(",");
        reveal_strlit("\n");
        assert(","@ =~= seq![',']);
        assert("\n"@ =~= seq!['\n']);
        assert(final(out)@ =~= old(out)@ + entry_line(entry@));
    }
}

/// Encodes `entries`, in their order, as one document.
pub fn encode(entries: &Vec<VideoEntry>) -> (text: String)
    ensures
        text@ == document(models(entries@)),
{
    let mut text = String::from_str("# mpv EDL v0\n");
    proof {
        reveal_strlit("# mpv EDL v0\n");
        assert(text@ =~= header_line());
        assert(models(entries@).take(0) =~= Seq::<EntryModel>::empty());
    }
    let mut done: usize = 0;
    while done < entries.len()
        invariant
            done <= entries.len(),
            text@ == document(models(entries@).take(done as int)),
        decreases entries.len() - done,
    {
        push_entry_line(&mut text, &entries[done]);
        proof {
            let before = models(entries@).take(done as int);
            let after = models(entries@).take(done + 1);
            assert(after.drop_last() =~= before);
            assert(after.last() == entries@[done as int]@);
            assert(text@ =~= document(after));
        }
        done += 1;
    }
    assert(models(entries@).take(done as int) =~= models(entries@));
    text
}

} // verus!
