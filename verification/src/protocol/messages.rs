//! Frames: JSON text followed by the record separator.

use crate::json::{
    error_message, json_model, json_parse, json_text, parse_value, separator, separator_free,
    value_text,
};
use crate::protocol::fields::texts_view;
use vstd::prelude::*;
use vstd::string::*;

verus! {

/// The record separator, which ends every frame.
pub const RECORD_SEPARATOR: &'static str = "\u{001E}";

/// A text with the record separator behind it.
pub open spec fn framed(text: Seq<char>) -> Seq<char> {
    text.push(separator())
}

/// A text without the record separators at its end.
pub open spec fn stripped(text: Seq<char>) -> Seq<char>
    decreases text.len(),
{
    if text.len() > 0 && text.last() == separator() {
        stripped(text.drop_last())
    } else {
        text
    }
}

/// The number of record separators in a text.
pub open spec fn separator_count(text: Seq<char>) -> nat
    decreases text.len(),
{
    if text.len() == 0 {
        0
    } else {
        separator_count(text.drop_last()) + if text.last() == separator() {
            1nat
        } else {
            0nat
        }
    }
}

/// Reading a text from left to right: the frames that have ended so far, and
/// the characters read since the last separator.
pub open spec fn scan(text: Seq<char>) -> (Seq<Seq<char>>, Seq<char>)
    decreases text.len(),
{
    if text.len() == 0 {
        (Seq::empty(), Seq::empty())
    } else {
        let (done, current) = scan(text.drop_last());
        if text.last() == separator() {
            if current.len() > 0 {
                (done.push(current), Seq::empty())
            } else {
                (done, Seq::empty())
            }
        } else {
            (done, current.push(text.last()))
        }
    }
}

/// The records of a text: the non-empty stretches between record separators,
/// in order. A stretch at the end that no separator follows counts too.
pub open spec fn records(text: Seq<char>) -> Seq<Seq<char>> {
    let (done, current) = scan(text);
    if current.len() > 0 {
        done.push(current)
    } else {
        done
    }
}

/// The texts framed one after the other.
pub open spec fn framed_all(texts: Seq<Seq<char>>) -> Seq<char>
    decreases texts.len(),
{
    if texts.len() == 0 {
        Seq::empty()
    } else {
        framed_all(texts.drop_last()) + framed(texts.last())
    }
}

/// A text without separators holds none.
pub proof fn lemma_separator_free_count(text: Seq<char>)
    requires
        separator_free(text),
    ensures
        separator_count(text) == 0,
    decreases text.len(),
{
    if text.len() > 0 {
        lemma_separator_free_count(text.drop_last());
    }
}

/// Reading on after a separator: what was read before stays, and the rest is
/// read as if it stood alone.
pub proof fn lemma_scan_append(head: Seq<char>, tail: Seq<char>)
    requires
        scan(head).1.len() == 0,
    ensures
        scan(head + tail) == (scan(head).0 + scan(tail).0, scan(tail).1),
    decreases tail.len(),
{
    if tail.len() == 0 {
        assert(head + tail =~= head);
        assert(scan(head).0 + scan(tail).0 =~= scan(head).0);
    } else {
        lemma_scan_append(head, tail.drop_last());
        assert((head + tail).drop_last() =~= head + tail.drop_last());
        let (done, current) = scan(tail.drop_last());
        assert(scan(head).0 + done.push(current) =~= (scan(head).0 + done).push(current));
    }
}

/// A text without separators is read as one unfinished stretch.
pub proof fn lemma_scan_separator_free(text: Seq<char>)
    requires
        separator_free(text),
    ensures
        scan(text) == (Seq::<Seq<char>>::empty(), text),
    decreases text.len(),
{
    if text.len() > 0 {
        lemma_scan_separator_free(text.drop_last());
        assert(text.drop_last().push(text.last()) =~= text);
    } else {
        assert(text =~= Seq::empty());
    }
}

/// Every record is non-empty and holds no separator.
pub proof fn lemma_records_clean(text: Seq<char>)
    ensures
        forall|i: int|
            0 <= i < records(text).len() ==> (#[trigger] records(text)[i]).len() > 0
                && separator_free(records(text)[i]),
        forall|i: int|
            0 <= i < scan(text).0.len() ==> (#[trigger] scan(text).0[i]).len() > 0
                && separator_free(scan(text).0[i]),
        separator_free(scan(text).1),
    decreases text.len(),
{
    if text.len() > 0 {
        lemma_records_clean(text.drop_last());
    }
}

/// A frame ends with the record separator and holds no other: the separator
/// occurs in it exactly once, as its last character.
pub proof fn lemma_frame_ends_once(text: Seq<char>)
    requires
        separator_free(text),
    ensures
        framed(text).last() == separator(),
        framed(text).drop_last() == text,
        separator_count(framed(text)) == 1,
        stripped(framed(text)) == text,
{
    assert(framed(text).drop_last() =~= text);
    lemma_separator_free_count(text);
    lemma_stripped_separator_free(text);
}

/// A text that does not end with a separator is its own stripped form.
pub proof fn lemma_stripped_separator_free(text: Seq<char>)
    requires
        separator_free(text),
    ensures
        stripped(text) == text,
{
}

/// One frame is read as one record: the text that was framed.
pub proof fn lemma_records_of_frame(text: Seq<char>)
    requires
        separator_free(text),
        text.len() > 0,
    ensures
        scan(framed(text)) == (seq![text], Seq::<char>::empty()),
        records(framed(text)) == seq![text],
{
    lemma_scan_separator_free(text);
    assert(framed(text).drop_last() =~= text);
    assert(Seq::<Seq<char>>::empty().push(text) =~= seq![text]);
}

/// Frames written one after the other are read back one by one: `N` frames
/// give `N` records, each the text that was framed, in order, and none empty.
pub proof fn lemma_records_of_frames(texts: Seq<Seq<char>>)
    requires
        forall|i: int|
            0 <= i < texts.len() ==> (#[trigger] texts[i]).len() > 0 && separator_free(texts[i]),
    ensures
        scan(framed_all(texts)) == (texts, Seq::<char>::empty()),
        records(framed_all(texts)) == texts,
        records(framed_all(texts)).len() == texts.len(),
    decreases texts.len(),
{
    if texts.len() == 0 {
        assert(texts =~= Seq::empty());
    } else {
        let front = texts.drop_last();
        lemma_records_of_frames(front);
        lemma_records_of_frame(texts.last());
        lemma_scan_append(framed_all(front), framed(texts.last()));
        assert(front + seq![texts.last()] =~= texts);
    }
}

/// Reading and writing one message as JSON text.
pub struct MessageParser {}

impl MessageParser {
    /// The frame of a document: its compact JSON text followed by the record
    /// separator. The text is not empty, and the separator occurs in the frame
    /// exactly once, as its last character.
    pub fn to_json(value: &serde_json::Value) -> (frame: String)
        ensures
            frame@ == framed(json_text(json_model(*value))),
            json_text(json_model(*value)).len() > 0,
            separator_free(json_text(json_model(*value))),
            frame@.last() == separator(),
            separator_count(frame@) == 1,
            records(frame@) == seq![json_text(json_model(*value))],
    {
        let mut frame = value_text(value);
        proof {
            lemma_frame_ends_once(frame@);
            lemma_records_of_frame(frame@);
        }
        frame.push('\u{1e}');
        frame
    }

    /// The text without the record separators at its end.
    pub fn strip_record_separator(input: &str) -> (output: &str)
        ensures
            output@ == stripped(input@),
    {
        let length: usize = input.unicode_len();
        let mut keep: usize = 0;
        let mut seen: usize = 0;
        for c in it: input.chars()
            invariant
                it.seq() == input@,
                length == input@.len(),
                seen == it.index(),
                keep <= seen,
                stripped(input@.take(seen as int)) == input@.take(keep as int),
        {
            proof {
                let before = input@.take(seen as int);
                let after = input@.take(seen + 1);
                assert(after.drop_last() =~= before);
                assert(after.last() == c);
            }
            seen = seen + 1;
            if c != '\u{1e}' {
                keep = seen;
            }
        }
        assert(input@.take(seen as int) =~= input@);
        let output = input.substring_char(0, keep);
        assert(output@ =~= input@.take(keep as int));
        output
    }

    /// Reads one message as a JSON document. The text is rejected exactly
    /// where it is no JSON document; the error then carries the parser's
    /// words.
    pub fn parse_message(message: &str) -> (r: Result<serde_json::Value, String>)
        ensures
            r is Ok <==> json_parse(message@) is Some,
            r matches Ok(value) ==> json_parse(message@) == Some(json_model(value)),
    {
        match parse_value(message) {
            Ok(value) => Ok(value),
            Err(error) => Err(error_message(&error)),
        }
    }

    /// The records of one transport read, in order: the text is cut at every
    /// record separator and empty pieces are dropped.
    pub fn split_records(text: &str) -> (messages: Vec<String>)
        ensures
            texts_view(messages@) == records(text@),
    {
        let mut done: Vec<String> = Vec::new();
        let mut current = String::new();
        let mut pending = false;
        for c in it: text.chars()
            invariant
                it.seq() == text@,
                scan(text@.take(it.index())) == (texts_view(done@), current@),
                pending == (current@.len() > 0),
        {
            proof {
                let before = text@.take(it.index());
                let after = text@.take(it.index() + 1);
                assert(after.drop_last() =~= before);
                assert(after.last() == c);
            }
            if c == '\u{1e}' {
                if pending {
                    let ghost before = texts_view(done@);
                    done.push(current);
                    assert(texts_view(done@) =~= before.push(current@));
                    current = String::new();
                    pending = false;
                }
            } else {
                current.push(c);
                pending = true;
            }
        }
        assert(text@.take(text@.len() as int) =~= text@);
        if pending {
            let ghost before = texts_view(done@);
            done.push(current);
            assert(texts_view(done@) =~= before.push(current@));
        }
        done
    }
}

} // verus!
