use vstd::prelude::*;
use crate::ident::{canonical_id, canonical_uri, is_delimited, segments, tag_of, tagged_id};
use crate::kind::Type;
use crate::text::free_of;

verus! {

/// A text always has at least one segment.
pub proof fn lemma_segments_nonempty(s: Seq<char>, sep: char)
    ensures
        segments(s, sep).len() >= 1,
    decreases s.len(),
{
    if s.len() > 0 {
        lemma_segments_nonempty(s.drop_last(), sep);
    }
}

/// A text without the separator is its own single segment.
pub proof fn lemma_segments_plain(s: Seq<char>, sep: char)
    requires
        free_of(s, sep),
    ensures
        segments(s, sep) == seq![s],
    decreases s.len(),
{
    if s.len() == 0 {
        assert(s =~= Seq::<char>::empty());
    } else {
        lemma_segments_plain(s.drop_last(), sep);
        assert(s.drop_last().push(s.last()) =~= s);
        assert(seq![s.drop_last()].update(0, s) =~= seq![s]);
    }
}

/// Appending a text without the separator lengthens the last segment and
/// leaves the others as they were.
pub proof fn lemma_segments_extend(a: Seq<char>, b: Seq<char>, sep: char)
    requires
        free_of(b, sep),
    ensures
        segments(a, sep).len() >= 1,
        segments(a + b, sep) == segments(a, sep).update(
            segments(a, sep).len() - 1,
            segments(a, sep).last() + b,
        ),
    decreases b.len(),
{
    lemma_segments_nonempty(a, sep);
    let pieces = segments(a, sep);
    if b.len() == 0 {
        assert(a + b =~= a);
        assert(pieces.last() + b =~= pieces.last());
        assert(pieces.update(pieces.len() - 1, pieces.last()) =~= pieces);
    } else {
        let shorter = b.drop_last();
        lemma_segments_extend(a, shorter, sep);
        assert((a + b).drop_last() =~= a + shorter);
        assert((a + b).last() == b.last());
        assert((pieces.last() + shorter).push(b.last()) =~= pieces.last() + b);
        assert(segments(a + shorter, sep).update(
            pieces.len() - 1,
            (pieces.last() + shorter).push(b.last()),
        ) =~= pieces.update(pieces.len() - 1, pieces.last() + b));
    }
}

/// After a separator, a text without one is a segment of its own.
pub proof fn lemma_segments_after_separator(a: Seq<char>, b: Seq<char>, sep: char)
    requires
        free_of(b, sep),
    ensures
        segments(a + seq![sep] + b, sep) == segments(a, sep).push(b),
{
    let opened = a + seq![sep];
    assert(opened.drop_last() =~= a);
    assert(opened.last() == sep);
    lemma_segments_extend(opened, b, sep);
    assert(Seq::<char>::empty() + b =~= b);
    let pieces = segments(a, sep).push(Seq::<char>::empty());
    assert(pieces.update(pieces.len() - 1, b) =~= segments(a, sep).push(b));
}

/// No kind's token holds a colon or a slash.
pub proof fn lemma_token_is_plain(kind: Type)
    ensures
        free_of(kind.token(), ':'),
        free_of(kind.token(), '/'),
{
    reveal_strlit("artist");
    reveal_strlit("album");
    reveal_strlit("track");
    reveal_strlit("playlist");
    reveal_strlit("user");
}

/// A text that ends in a separator, the kind's token, a separator and an
/// identifier free of that separator reads as that identifier under it.
pub proof fn lemma_tagged_reads_back(kind: Type, service: Seq<char>, id: Seq<char>, sep: char)
    requires
        sep == ':' || sep == '/',
        free_of(id, sep),
    ensures
        tagged_id(kind.token(), service + seq![sep] + kind.token() + seq![sep] + id, sep) == Some(
            id,
        ),
{
    lemma_token_is_plain(kind);
    lemma_segments_nonempty(service, sep);
    lemma_segments_after_separator(service, kind.token(), sep);
    lemma_segments_after_separator(service + seq![sep] + kind.token(), id, sep);
}

/// An identifier that holds neither a colon nor a slash is already canonical,
/// whatever the kind.
pub proof fn lemma_bare_id_is_canonical(kind: Type, id: Seq<char>)
    requires
        free_of(id, ':'),
        free_of(id, '/'),
    ensures
        canonical_id(kind.token(), id) == id,
{
    lemma_segments_plain(id, ':');
    lemma_segments_plain(id, '/');
}

/// The URI `<service>:<token>:<id>` resolves to `<id>` for its own kind,
/// whenever `<id>` holds no colon. (With a colon in it the identifier would
/// itself be split, and the law fails.)
pub proof fn lemma_uri_resolves(kind: Type, service: Seq<char>, id: Seq<char>)
    requires
        free_of(id, ':'),
    ensures
        canonical_id(kind.token(), service + seq![':'] + kind.token() + seq![':'] + id) == id,
{
    lemma_tagged_reads_back(kind, service, id, ':');
}

/// The URL `<service>/<token>/<id>` resolves to `<id>` for its own kind,
/// whenever `<id>` holds no slash and the URI form, which is tried first,
/// does not claim the text.
pub proof fn lemma_url_resolves(kind: Type, service: Seq<char>, id: Seq<char>)
    requires
        free_of(id, '/'),
        tagged_id(kind.token(), service + seq!['/'] + kind.token() + seq!['/'] + id, ':') is None,
    ensures
        canonical_id(kind.token(), service + seq!['/'] + kind.token() + seq!['/'] + id) == id,
{
    lemma_tagged_reads_back(kind, service, id, '/');
}

/// In particular the URL `<service>/<token>/<id>` resolves to `<id>` where
/// neither `<service>` nor `<id>` holds a colon, and `<id>` no slash.
pub proof fn lemma_plain_url_resolves(kind: Type, service: Seq<char>, id: Seq<char>)
    requires
        free_of(service, ':'),
        free_of(id, ':'),
        free_of(id, '/'),
    ensures
        canonical_id(kind.token(), service + seq!['/'] + kind.token() + seq!['/'] + id) == id,
{
    let raw = service + seq!['/'] + kind.token() + seq!['/'] + id;
    lemma_token_is_plain(kind);
    assert(free_of(raw, ':'));
    lemma_segments_plain(raw, ':');
    lemma_url_resolves(kind, service, id);
}

/// A text with fewer than three segments under the colon and under the
/// slash is a bare identifier: it is handed back as it came.
pub proof fn lemma_short_is_bare(token: Seq<char>, raw: Seq<char>)
    requires
        !is_delimited(raw, ':'),
        !is_delimited(raw, '/'),
    ensures
        canonical_id(token, raw) == raw,
{
}

/// A URI tagged with another kind is handed back unchanged, unless the URL
/// form claims it: a mismatch never fails, it falls through.
pub proof fn lemma_mismatch_falls_through(kind: Type, raw: Seq<char>)
    requires
        is_delimited(raw, ':'),
        tag_of(raw, ':') != kind.token(),
        tagged_id(kind.token(), raw, '/') is None,
    ensures
        canonical_id(kind.token(), raw) == raw,
{
}

/// Resolving is idempotent through the canonical URI: the URI built for a
/// kind resolves, for that kind, to the identifier it was built from,
/// whenever that identifier holds no colon.
pub proof fn lemma_uri_round_trip(kind: Type, raw: Seq<char>)
    requires
        free_of(canonical_id(kind.token(), raw), ':'),
    ensures
        canonical_id(kind.token(), canonical_uri(kind.token(), raw)) == canonical_id(
            kind.token(),
            raw,
        ),
{
    lemma_uri_resolves(kind, "spotify"@, canonical_id(kind.token(), raw));
    reveal_strlit("spotify");
    reveal_strlit("spotify:");
    assert("spotify:"@ =~= "spotify"@ + seq![':']);
}

} // verus!
