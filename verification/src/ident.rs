use vstd::prelude::*;
use vstd::string::*;
use crate::kind::Type;
use crate::text::{slice_equals, to_chars, views};

verus! {

/// The pieces of `s` that lie between occurrences of `sep`: always at least
/// one piece, and an empty piece wherever two separators meet or one stands
/// at either end.
pub open spec fn segments(s: Seq<char>, sep: char) -> Seq<Seq<char>>
    decreases s.len(),
{
    if s.len() == 0 {
        seq![Seq::<char>::empty()]
    } else {
        let before = segments(s.drop_last(), sep);
        if s.last() == sep {
            before.push(Seq::<char>::empty())
        } else {
            before.update(before.len() - 1, before.last().push(s.last()))
        }
    }
}

/// The kind tag of `raw` under `sep`: its second-to-last segment.
pub open spec fn tag_of(raw: Seq<char>, sep: char) -> Seq<char> {
    let pieces = segments(raw, sep);
    pieces[pieces.len() - 2]
}

/// Whether `raw` is written in the form that `sep` delimits: three segments or more.
pub open spec fn is_delimited(raw: Seq<char>, sep: char) -> bool {
    segments(raw, sep).len() >= 3
}

/// The identifier that `raw` carries in the form delimited by `sep`, if it is
/// written in that form and tagged with `token`.
pub open spec fn tagged_id(token: Seq<char>, raw: Seq<char>, sep: char) -> Option<Seq<char>> {
    if is_delimited(raw, sep) && tag_of(raw, sep) == token {
        Some(segments(raw, sep).last())
    } else {
        None
    }
}

/// The canonical identifier of `raw` for a resource whose kind is written
/// `token`: the URI form is tried first, then the URL form; a string that
/// neither form claims is its own identifier.
pub open spec fn canonical_id(token: Seq<char>, raw: Seq<char>) -> Seq<char> {
    match tagged_id(token, raw, ':') {
        Some(id) => id,
        None => match tagged_id(token, raw, '/') {
            Some(id) => id,
            None => raw,
        },
    }
}

/// The canonical URI of `raw` for a resource whose kind is written `token`.
pub open spec fn canonical_uri(token: Seq<char>, raw: Seq<char>) -> Seq<char> {
    "spotify:"@ + token + seq![':'] + canonical_id(token, raw)
}

/// The kind tags that `raw` carries in place of `token`, in the order in
/// which the forms are tried: none where the URI form gives the identifier,
/// else the tag of the URI form, if `raw` is written in it, and then the tag
/// of the URL form, if `raw` is written in it with another tag than `token`.
pub open spec fn mismatched_tags(token: Seq<char>, raw: Seq<char>) -> Seq<Seq<char>> {
    if tagged_id(token, raw, ':') is Some {
        Seq::empty()
    } else {
        let uri = if is_delimited(raw, ':') {
            seq![tag_of(raw, ':')]
        } else {
            Seq::empty()
        };
        if is_delimited(raw, '/') && tag_of(raw, '/') != token {
            uri.push(tag_of(raw, '/'))
        } else {
            uri
        }
    }
}

/// How an identifier reads under one separator.
#[derive(Debug)]
pub enum Form {
    /// Fewer than three segments: not written in this form.
    Plain,
    /// Written in this form and tagged with the expected kind; holds the identifier.
    Tagged(String),
    /// Written in this form but tagged with another kind; holds the tag found.
    Mismatched(String),
}

/// Where the segments at the end of a text begin.
struct Tail {
    /// How many separators the text holds.
    seps: usize,
    /// Where the second-to-last segment begins, once there is one.
    tag_start: usize,
    /// Where the last segment begins.
    id_start: usize,
}

fn scan(chars: &Vec<char>, sep: char) -> (tail: Tail)
    ensures
        segments(chars@, sep).len() == tail.seps + 1,
        tail.id_start <= chars.len(),
        segments(chars@, sep).last() == chars@.subrange(tail.id_start as int, chars.len() as int),
        tail.seps >= 1 ==> tail.tag_start < tail.id_start && tag_of(chars@, sep)
            == chars@.subrange(tail.tag_start as int, tail.id_start - 1),
{
    let mut tail = Tail { seps: 0, tag_start: 0, id_start: 0 };
    let mut i: usize = 0;
    assert(chars@.take(0) =~= Seq::<char>::empty());
    assert(chars@.subrange(0, 0) =~= Seq::<char>::empty());
    while i < chars.len()
        invariant
            i <= chars.len(),
            tail.seps <= i,
            tail.id_start <= i,
            segments(chars@.take(i as int), sep).len() == tail.seps + 1,
            segments(chars@.take(i as int), sep).last() == chars@.subrange(
                tail.id_start as int,
                i as int,
            ),
            tail.seps >= 1 ==> tail.tag_start < tail.id_start && tag_of(chars@.take(i as int), sep)
                == chars@.subrange(tail.tag_start as int, tail.id_start - 1),
        decreases chars.len() - i,
    {
        let ghost seen = chars@.take(i as int);
        let ghost next = chars@.take(i + 1);
        assert(next.drop_last() =~= seen);
        assert(next.last() == chars@[i as int]);
        if chars[i] == sep {
            assert(chars@.subrange(i + 1, i + 1) =~= Seq::<char>::empty());
            tail.seps = tail.seps + 1;
            tail.tag_start = tail.id_start;
            tail.id_start = i + 1;
        } else {
            assert(chars@.subrange(tail.id_start as int, i as int).push(chars@[i as int])
                =~= chars@.subrange(tail.id_start as int, i + 1));
        }
        i += 1;
    }
    assert(chars@.take(chars.len() as int) =~= chars@);
    tail
}

/// Reads `raw` in the form that `sep` delimits, for a resource of kind `kind`.
pub fn read_form(kind: Type, raw: &str, sep: char) -> (form: Form)
    ensures
        match form {
            Form::Plain => !is_delimited(raw@, sep),
            Form::Tagged(id) => tagged_id(kind.token(), raw@, sep) == Some(id@),
            Form::Mismatched(tag) => is_delimited(raw@, sep) && tag_of(raw@, sep) != kind.token()
                && tag@ == tag_of(raw@, sep),
        },
{
    let chars = to_chars(raw);
    let tail = scan(&chars, sep);
    if tail.seps < 2 {
        return Form::Plain;
    }
    let token = to_chars(kind.as_str());
    if slice_equals(&chars, tail.tag_start, tail.id_start - 1, &token) {
        Form::Tagged(String::from_str(raw.substring_char(tail.id_start, chars.len())))
    } else {
        Form::Mismatched(String::from_str(raw.substring_char(tail.tag_start, tail.id_start - 1)))
    }
}

/// The kind tags found in `raw` where a tag of `kind` was expected: what
/// there is to tell the user when an identifier is resolved. A mismatch
/// stops nothing; it is only worth a word.
pub fn kind_mismatches(kind: Type, raw: &str) -> (tags: Vec<String>)
    ensures
        views(tags@) == mismatched_tags(kind.token(), raw@),
{
    let mut tags: Vec<String> = Vec::new();
    match read_form(kind, raw, ':') {
        Form::Tagged(_) => {
            assert(views(tags@) =~= mismatched_tags(kind.token(), raw@));
            return tags;
        },
        Form::Mismatched(tag) => {
            tags.push(tag);
        },
        Form::Plain => {},
    }
    match read_form(kind, raw, '/') {
        Form::Mismatched(tag) => {
            tags.push(tag);
        },
        _ => {},
    }
    assert(views(tags@) =~= mismatched_tags(kind.token(), raw@));
    tags
}

} // verus!
