use vstd::prelude::*;
use vstd::string::*;
use crate::client::{with_query, Spotify};
use crate::decimal::{decimal, decimal_string};
use crate::dispatch::{Method, Request};
use crate::ident::{canonical_id, canonical_uri};
use crate::kind::{AlbumType, Type};
use crate::params::{has_key, pair_text, query_of, with_optional, Entries, Params};
use crate::payload::{empty_object, no_fields, set_field, with_optional_field, Json, JsonView};
use crate::text::{join, joined, views};

verus! {

/// The text of `value`, where there is one.
pub open spec fn text_of(value: Option<&str>) -> Option<Seq<char>> {
    match value {
        Some(text) => Some(text@),
        None => None,
    }
}

/// The word for `value` in a query, where there is one.
pub open spec fn album_type_of(value: Option<AlbumType>) -> Option<Seq<char>> {
    match value {
        Some(album_type) => Some(album_type.token()),
        None => None,
    }
}

/// The market whose top tracks are asked for: `US` unless the caller names one.
pub open spec fn country_or_default(country: Option<String>) -> Seq<char> {
    match country {
        Some(code) => code@,
        None => "US"@,
    }
}

/// `flag` as a JSON value, where there is one.
pub open spec fn flag_of(flag: Option<bool>) -> Option<JsonView> {
    match flag {
        Some(b) => Some(JsonView::Bool(b)),
        None => None,
    }
}

/// `text` as a JSON value, where there is one.
pub open spec fn json_text_of(text: Option<Seq<char>>) -> Option<JsonView> {
    match text {
        Some(t) => Some(JsonView::Text(t)),
        None => None,
    }
}

/// `number` as a JSON value, where there is one.
pub open spec fn number_of(number: Option<i32>) -> Option<JsonView> {
    match number {
        Some(n) => Some(JsonView::Number(n as int)),
        None => None,
    }
}

/// The text of `value`, where there is one.
pub open spec fn string_of(value: Option<String>) -> Option<Seq<char>> {
    match value {
        Some(text) => Some(text@),
        None => None,
    }
}

/// The page size asked for: 50 unless the caller names one.
pub open spec fn limit_or_default(limit: Option<u32>) -> nat {
    match limit {
        Some(n) => n as nat,
        None => 50,
    }
}

/// The index of the first item asked for: 0 unless the caller names one.
pub open spec fn offset_or_default(offset: Option<u32>) -> nat {
    match offset {
        Some(n) => n as nat,
        None => 0,
    }
}

/// The parameters that select a page: `limit`, then `offset`.
pub open spec fn page_entries(limit: Option<u32>, offset: Option<u32>) -> Entries {
    seq![
        ("limit"@, decimal(limit_or_default(limit))),
        ("offset"@, decimal(offset_or_default(offset))),
    ]
}

/// The parameters that select a page of an artist's albums: `limit`, the
/// kind of release where one is named, `offset`, and the country where one
/// is named.
pub open spec fn album_entries(
    album_type: Option<AlbumType>,
    country: Option<&str>,
    limit: Option<u32>,
    offset: Option<u32>,
) -> Entries {
    with_optional(
        with_optional(
            seq![("limit"@, decimal(limit_or_default(limit)))],
            "album_type"@,
            album_type_of(album_type),
        ).push(("offset"@, decimal(offset_or_default(offset)))),
        "country"@,
        text_of(country),
    )
}

/// The canonical identifiers of `raws`, in order.
pub open spec fn canonical_ids(token: Seq<char>, raws: Seq<Seq<char>>) -> Seq<Seq<char>> {
    raws.map_values(|raw: Seq<char>| canonical_id(token, raw))
}

/// The canonical URIs of `raws`, in order.
pub open spec fn canonical_uris(token: Seq<char>, raws: Seq<Seq<char>>) -> Seq<Seq<char>> {
    raws.map_values(|raw: Seq<char>| canonical_uri(token, raw))
}

/// The names of the query parameters differ from each other.
proof fn lemma_names_differ()
    ensures
        "limit"@ != "offset"@,
        "limit"@ != "market"@,
        "limit"@ != "fields"@,
        "limit"@ != "album_type"@,
        "limit"@ != "country"@,
        "offset"@ != "market"@,
        "offset"@ != "fields"@,
        "offset"@ != "album_type"@,
        "offset"@ != "country"@,
        "market"@ != "fields"@,
        "album_type"@ != "country"@,
{
    reveal_strlit("limit");
    reveal_strlit("offset");
    reveal_strlit("market");
    reveal_strlit("fields");
    reveal_strlit("album_type");
    reveal_strlit("country");
    assert("limit"@.len() == 5);
    assert("offset"@.len() == 6 && "offset"@[0] == 'o');
    assert("market"@.len() == 6 && "market"@[0] == 'm');
    assert("fields"@.len() == 6 && "fields"@[0] == 'f');
    assert("album_type"@.len() == 10);
    assert("country"@.len() == 7);
}

/// The page asked for where the caller names neither a size nor a first
/// item is 50 items from item 0, written `limit=50&offset=0`.
pub proof fn lemma_default_page()
    ensures
        query_of(page_entries(None, None)) == "limit=50&offset=0"@,
        forall|url: Seq<char>| #[trigger]
            with_query(url, page_entries(None, None)) == url + "?limit=50&offset=0"@,
{
    reveal_strlit("limit");
    reveal_strlit("offset");
    reveal_strlit("limit=50&offset=0");
    reveal_strlit("?limit=50&offset=0");
    let page = page_entries(None, None);
    assert(decimal(5) =~= seq!['5']);
    assert(decimal(50) =~= seq!['5', '0']) by {
        assert(50nat / 10 == 5 && 50nat % 10 == 0);
    }
    assert(decimal(0) =~= seq!['0']);
    assert(page.drop_last() =~= seq![("limit"@, decimal(50))]);
    assert(query_of(page.drop_last()) =~= pair_text(("limit"@, decimal(50))));
    assert(query_of(page) =~= "limit=50&offset=0"@);
    assert forall|url: Seq<char>| #[trigger]
        with_query(url, page) == url + "?limit=50&offset=0"@ by {
        assert(url + seq!['?'] + "limit=50&offset=0"@ =~= url + "?limit=50&offset=0"@);
    }
}

/// A call for an artist's albums that names neither a page size nor a first
/// item asks for 50 items from item 0, whatever else it names; where it
/// names nothing else, its query string is `limit=50&offset=0`.
pub proof fn lemma_default_album_page(album_type: Option<AlbumType>, country: Option<&str>)
    ensures
        album_entries(album_type, country, None, None).contains(("limit"@, "50"@)),
        album_entries(album_type, country, None, None).contains(("offset"@, "0"@)),
        album_entries(None, None, None, None) == page_entries(None, None),
        query_of(album_entries(None, None, None, None)) == "limit=50&offset=0"@,
{
    reveal_strlit("50");
    reveal_strlit("0");
    assert(decimal(5) =~= seq!['5']);
    assert(decimal(50) =~= "50"@) by {
        assert(50nat / 10 == 5 && 50nat % 10 == 0);
    }
    assert(decimal(0) =~= "0"@);
    let narrowed = with_optional(
        seq![("limit"@, decimal(50))],
        "album_type"@,
        album_type_of(album_type),
    );
    let paged = narrowed.push(("offset"@, decimal(0)));
    let entries = album_entries(album_type, country, None, None);
    assert(narrowed[0] == ("limit"@, "50"@));
    assert(paged[0] == ("limit"@, "50"@));
    assert(paged[paged.len() - 1] == ("offset"@, "0"@));
    assert(entries[0] == ("limit"@, "50"@));
    assert(entries[paged.len() - 1] == ("offset"@, "0"@));
    assert(album_entries(None, None, None, None) =~= page_entries(None, None));
    lemma_default_page();
}

/// No list of parameters names anything before it is given a name.
proof fn lemma_empty_has_no_key(key: Seq<char>)
    ensures
        !has_key(Entries::empty(), key),
{
}

/// A name stays out of a list to which another name is added.
proof fn lemma_stays_out(entries: Entries, key: Seq<char>, value: Option<Seq<char>>, other: Seq<char>)
    requires
        !has_key(entries, other),
        key != other,
    ensures
        !has_key(with_optional(entries, key, value), other),
{
    let after = with_optional(entries, key, value);
    assert forall|i: int| 0 <= i < after.len() implies #[trigger] after[i].0 != other by {
        if i < entries.len() {
            assert(after[i] == entries[i]);
        }
    }
}

fn page_params(limit: Option<u32>, offset: Option<u32>) -> (params: Params)
    ensures
        params@ == page_entries(limit, offset),
        params.wf(),
{
    let mut params = Params::new();
    params.add("limit", decimal_string(limit.unwrap_or(50)));
    proof {
        lemma_names_differ();
        let first = Entries::empty().push(("limit"@, decimal(limit_or_default(limit))));
        assert(params@ == first);
        assert forall|i: int| 0 <= i < first.len() implies #[trigger] first[i].0 != "offset"@ by {}
    }
    params.add("offset", decimal_string(offset.unwrap_or(0)));
    assert(params@ =~= page_entries(limit, offset));
    params
}

/// Adds `key` with `value`, where there is a value.
fn add_optional(params: &mut Params, key: &str, value: Option<String>)
    requires
        old(params).wf(),
        !has_key(old(params)@, key@),
    ensures
        final(params)@ == with_optional(
            old(params)@,
            key@,
            match value {
                Some(v) => Some(v@),
                None => None,
            },
        ),
        final(params).wf(),
{
    if let Some(v) = value {
        params.add(key, v);
    }
}

fn owned(value: Option<&str>) -> (text: Option<String>)
    ensures
        match text {
            Some(t) => text_of(value) == Some(t@),
            None => value is None,
        },
{
    match value {
        Some(v) => Some(String::from_str(v)),
        None => None,
    }
}

impl Spotify {
    fn ids_of(&self, kind: Type, raws: &Vec<String>) -> (ids: Vec<String>)
        ensures
            views(ids@) == canonical_ids(kind.token(), views(raws@)),
    {
        let mut ids: Vec<String> = Vec::new();
        let mut i: usize = 0;
        while i < raws.len()
            invariant
                i <= raws.len(),
                ids.len() == i,
                forall|j: int| 0 <= j < i ==> (#[trigger] ids@[j])@ == canonical_id(kind.token(), raws@[j]@),
            decreases raws.len() - i,
        {
            ids.push(self.get_id(kind, raws[i].as_str()));
            i += 1;
        }
        assert(views(ids@) =~= canonical_ids(kind.token(), views(raws@)));
        ids
    }

    fn uris_of(&self, kind: Type, raws: &Vec<String>) -> (uris: Vec<String>)
        ensures
            views(uris@) == canonical_uris(kind.token(), views(raws@)),
    {
        let mut uris: Vec<String> = Vec::new();
        let mut i: usize = 0;
        while i < raws.len()
            invariant
                i <= raws.len(),
                uris.len() == i,
                forall|j: int| 0 <= j < i ==> (#[trigger] uris@[j])@ == canonical_uri(kind.token(), raws@[j]@),
            decreases raws.len() - i,
        {
            uris.push(self.get_uri(kind, raws[i].as_str()));
            i += 1;
        }
        assert(views(uris@) =~= canonical_uris(kind.token(), views(raws@)));
        uris
    }

    /// The request for one track, named by identifier, URI or URL.
    pub fn track(&self, track_id: &str) -> (request: Request)
        requires
            self.has_auth(),
        ensures
            request@ == self.get_request_for(
                "tracks/"@ + canonical_id(Type::Track.token(), track_id@),
                Entries::empty(),
            ),
    {
        let trid = self.get_id(Type::Track, track_id);
        let mut url = String::from_str("tracks/");
        url.append(trid.as_str());
        self.get(url.as_str(), &Params::new())
    }

    /// The request for several tracks, each named by identifier, URI or
    /// URL, narrowed to a market where one is given.
    pub fn tracks(&self, track_ids: Vec<String>, market: Option<&str>) -> (request: Request)
        requires
            self.has_auth(),
        ensures
            request@ == self.get_request_for(
                "tracks/?ids="@ + joined(
                    canonical_ids(Type::Track.token(), views(track_ids@)),
                    ","@,
                ),
                with_optional(Entries::empty(), "market"@, text_of(market)),
            ),
    {
        let ids = self.ids_of(Type::Track, &track_ids);
        let mut url = String::from_str("tracks/?ids=");
        url.append(join(&ids, ",").as_str());
        let mut params = Params::new();
        proof {
            lemma_empty_has_no_key("market"@);
        }
        add_optional(&mut params, "market", owned(market));
        self.get(url.as_str(), &params)
    }

    /// The request for one artist, named by identifier, URI or URL.
    pub fn artist(&self, artist_id: &str) -> (request: Request)
        requires
            self.has_auth(),
        ensures
            request@ == self.get_request_for(
                "artists/"@ + canonical_id(Type::Artist.token(), artist_id@),
                Entries::empty(),
            ),
    {
        let trid = self.get_id(Type::Artist, artist_id);
        let mut url = String::from_str("artists/");
        url.append(trid.as_str());
        self.get(url.as_str(), &Params::new())
    }

    /// The request for several artists, each named by identifier, URI or URL.
    pub fn artists(&self, artist_ids: Vec<String>) -> (request: Request)
        requires
            self.has_auth(),
        ensures
            request@ == self.get_request_for(
                "artists/?ids="@ + joined(
                    canonical_ids(Type::Artist.token(), views(artist_ids@)),
                    ","@,
                ),
                Entries::empty(),
            ),
    {
        let ids = self.ids_of(Type::Artist, &artist_ids);
        let mut url = String::from_str("artists/?ids=");
        url.append(join(&ids, ",").as_str());
        self.get(url.as_str(), &Params::new())
    }

    /// The request for one page of an artist's albums: 50 from the first
    /// unless the caller says otherwise, narrowed by kind of release and by
    /// country where the caller names them.
    pub fn artist_albums(
        &self,
        artist_id: &str,
        album_type: Option<AlbumType>,
        country: Option<&str>,
        limit: Option<u32>,
        offset: Option<u32>,
    ) -> (request: Request)
        requires
            self.has_auth(),
        ensures
            request@ == self.get_request_for(
                "artists/"@ + canonical_id(Type::Artist.token(), artist_id@) + "/albums"@,
                album_entries(album_type, country, limit, offset),
            ),
    {
        let ghost size = decimal(limit_or_default(limit));
        let ghost first = decimal(offset_or_default(offset));
        let ghost e0 = Entries::empty();
        let ghost e1 = with_optional(e0, "limit"@, Some(size));
        let ghost e2 = with_optional(e1, "album_type"@, album_type_of(album_type));
        let ghost e3 = with_optional(e2, "offset"@, Some(first));
        proof {
            lemma_names_differ();
            lemma_empty_has_no_key("limit"@);
            lemma_empty_has_no_key("album_type"@);
            lemma_empty_has_no_key("offset"@);
            lemma_empty_has_no_key("country"@);
            lemma_stays_out(e0, "limit"@, Some(size), "album_type"@);
            lemma_stays_out(e0, "limit"@, Some(size), "offset"@);
            lemma_stays_out(e0, "limit"@, Some(size), "country"@);
            lemma_stays_out(e1, "album_type"@, album_type_of(album_type), "offset"@);
            lemma_stays_out(e1, "album_type"@, album_type_of(album_type), "country"@);
            lemma_stays_out(e2, "offset"@, Some(first), "country"@);
            assert(e1 =~= seq![("limit"@, size)]);
        }
        let mut params = Params::new();
        params.add("limit", decimal_string(limit.unwrap_or(50)));
        assert(params@ == e1);
        let album_type_text = match album_type {
            Some(t) => Some(String::from_str(t.as_str())),
            None => None,
        };
        add_optional(&mut params, "album_type", album_type_text);
        assert(params@ == e2);
        params.add("offset", decimal_string(offset.unwrap_or(0)));
        assert(params@ == e3);
        add_optional(&mut params, "country", owned(country));
        let trid = self.get_id(Type::Artist, artist_id);
        let mut url = String::from_str("artists/");
        url.append(trid.as_str());
        url.append("/albums");
        self.get(url.as_str(), &params)
    }

    /// The request for an artist's top tracks in one market.
    pub fn artist_top_tracks(&self, artist_id: &str, country: Option<String>) -> (request: Request)
        requires
            self.has_auth(),
        ensures
            request@ == self.get_request_for(
                "artists/"@ + canonical_id(Type::Artist.token(), artist_id@) + "/top-tracks"@,
                seq![("country"@, country_or_default(country))],
            ),
    {
        let mut params = Params::new();
        let code = match country {
            Some(code) => code,
            None => String::from_str("US"),
        };
        proof {
            lemma_empty_has_no_key("country"@);
        }
        params.add("country", code);
        assert(params@ =~= seq![("country"@, country_or_default(country))]);
        let trid = self.get_id(Type::Artist, artist_id);
        let mut url = String::from_str("artists/");
        url.append(trid.as_str());
        url.append("/top-tracks");
        self.get(url.as_str(), &params)
    }

    /// The request for the artists that listeners hold to be like this one.
    pub fn artist_related_artists(&self, artist_id: &str) -> (request: Request)
        requires
            self.has_auth(),
        ensures
            request@ == self.get_request_for(
                "artists/"@ + canonical_id(Type::Artist.token(), artist_id@)
                    + "/related-artists"@,
                Entries::empty(),
            ),
    {
        let trid = self.get_id(Type::Artist, artist_id);
        let mut url = String::from_str("artists/");
        url.append(trid.as_str());
        url.append("/related-artists");
        self.get(url.as_str(), &Params::new())
    }

    /// The request for one album, named by identifier, URI or URL.
    pub fn album(&self, album_id: &str) -> (request: Request)
        requires
            self.has_auth(),
        ensures
            request@ == self.get_request_for(
                "albums/"@ + canonical_id(Type::Album.token(), album_id@),
                Entries::empty(),
            ),
    {
        let trid = self.get_id(Type::Album, album_id);
        let mut url = String::from_str("albums/");
        url.append(trid.as_str());
        self.get(url.as_str(), &Params::new())
    }

    /// The request for several albums, each named by identifier, URI or URL.
    pub fn albums(&self, album_ids: Vec<String>) -> (request: Request)
        requires
            self.has_auth(),
        ensures
            request@ == self.get_request_for(
                "albums/?ids="@ + joined(
                    canonical_ids(Type::Album.token(), views(album_ids@)),
                    ","@,
                ),
                Entries::empty(),
            ),
    {
        let ids = self.ids_of(Type::Album, &album_ids);
        let mut url = String::from_str("albums/?ids=");
        url.append(join(&ids, ",").as_str());
        self.get(url.as_str(), &Params::new())
    }

    /// The request for one page of an album's tracks: 50 from the first
    /// unless the caller says otherwise.
    pub fn album_track(
        &self,
        album_id: &str,
        limit: Option<u32>,
        offset: Option<u32>,
    ) -> (request: Request)
        requires
            self.has_auth(),
        ensures
            request@ == self.get_request_for(
                "albums/"@ + canonical_id(Type::Album.token(), album_id@) + "/tracks"@,
                page_entries(limit, offset),
            ),
    {
        let params = page_params(limit, offset);
        let trid = self.get_id(Type::Album, album_id);
        let mut url = String::from_str("albums/");
        url.append(trid.as_str());
        url.append("/tracks");
        self.get(url.as_str(), &params)
    }

    /// The request for a user's public profile.
    pub fn user(&self, user_id: &str) -> (request: Request)
        requires
            self.has_auth(),
        ensures
            request@ == self.get_request_for("users/"@ + user_id@, Entries::empty()),
    {
        let mut url = String::from_str("users/");
        url.append(user_id);
        self.get(url.as_str(), &Params::new())
    }

    /// The request for one page of the playlists of the user whose token
    /// authorises the call.
    pub fn current_user_playlists(
        &self,
        limit: Option<u32>,
        offset: Option<u32>,
    ) -> (request: Request)
        requires
            self.has_auth(),
        ensures
            request@ == self.get_request_for("me/playlists"@, page_entries(limit, offset)),
    {
        let params = page_params(limit, offset);
        self.get("me/playlists", &params)
    }

    /// The request for one page of a user's playlists.
    pub fn user_playlists(
        &self,
        user_id: &str,
        limit: Option<u32>,
        offset: Option<u32>,
    ) -> (request: Request)
        requires
            self.has_auth(),
        ensures
            request@ == self.get_request_for(
                "users/"@ + user_id@ + "/playlists"@,
                page_entries(limit, offset),
            ),
    {
        let params = page_params(limit, offset);
        let mut url = String::from_str("users/");
        url.append(user_id);
        url.append("/playlists");
        self.get(url.as_str(), &params)
    }

    /// The request for one of a user's playlists, or for the user's starred
    /// playlist where none is named.
    pub fn user_playlist(
        &self,
        user_id: &str,
        playlist_id: Option<&str>,
        fields: Option<&str>,
    ) -> (request: Request)
        requires
            self.has_auth(),
        ensures
            request@ == self.get_request_for(
                match playlist_id {
                    Some(id) => "users/"@ + user_id@ + "/playlists/"@ + canonical_id(
                        Type::Playlist.token(),
                        id@,
                    ),
                    None => "users/"@ + user_id@ + "/starred"@,
                },
                with_optional(Entries::empty(), "fields"@, text_of(fields)),
            ),
    {
        let mut params = Params::new();
        proof {
            lemma_empty_has_no_key("fields"@);
        }
        add_optional(&mut params, "fields", owned(fields));
        match playlist_id {
            Some(_playlist_id) => {
                let plid = self.get_id(Type::Playlist, _playlist_id);
                let mut url = String::from_str("users/");
                url.append(user_id);
                url.append("/playlists/");
                url.append(plid.as_str());
                self.get(url.as_str(), &params)
            },
            None => {
                let mut url = String::from_str("users/");
                url.append(user_id);
                url.append("/starred");
                self.get(url.as_str(), &params)
            },
        }
    }

    /// The request for one page of the tracks of a user's playlist, with the
    /// market and the fields to return where the caller names them.
    pub fn user_playlist_tracks(
        &self,
        user_id: &str,
        playlist_id: &str,
        fields: Option<&str>,
        limit: Option<u32>,
        offset: Option<u32>,
        market: Option<&str>,
    ) -> (request: Request)
        requires
            self.has_auth(),
        ensures
            request@ == self.get_request_for(
                "users/"@ + user_id@ + "/playlists/"@ + canonical_id(
                    Type::Playlist.token(),
                    playlist_id@,
                ) + "/tracks"@,
                with_optional(
                    with_optional(page_entries(limit, offset), "market"@, text_of(market)),
                    "fields"@,
                    text_of(fields),
                ),
            ),
    {
        let mut params = page_params(limit, offset);
        let ghost page = page_entries(limit, offset);
        proof {
            lemma_names_differ();
            assert forall|i: int| 0 <= i < page.len() implies #[trigger] page[i].0 != "market"@ by {}
            assert forall|i: int| 0 <= i < page.len() implies #[trigger] page[i].0 != "fields"@ by {}
            lemma_stays_out(page, "market"@, text_of(market), "fields"@);
        }
        add_optional(&mut params, "market", owned(market));
        add_optional(&mut params, "fields", owned(fields));
        let plid = self.get_id(Type::Playlist, playlist_id);
        let mut url = String::from_str("users/");
        url.append(user_id);
        url.append("/playlists/");
        url.append(plid.as_str());
        url.append("/tracks");
        self.get(url.as_str(), &params)
    }

    /// The request that creates a playlist for a user: public, and without
    /// a description, unless the caller says otherwise.
    pub fn create_user_playlist(
        &self,
        user_id: &str,
        name: &str,
        public: Option<bool>,
        description: Option<String>,
    ) -> (request: Request)
        requires
            self.has_auth(),
        ensures
            request@ == self.request_for(
                Method::Post,
                "users/"@ + user_id@ + "/playlists"@,
                no_fields().insert("name"@, JsonView::Text(name@)).insert(
                    "public"@,
                    JsonView::Bool(
                        match public {
                            Some(b) => b,
                            None => true,
                        },
                    ),
                ).insert(
                    "description"@,
                    JsonView::Text(
                        match description {
                            Some(text) => text@,
                            None => Seq::<char>::empty(),
                        },
                    ),
                ),
            ),
    {
        let public = public.unwrap_or(true);
        let description = match description {
            Some(text) => text,
            None => String::new(),
        };
        let mut params = empty_object();
        set_field(&mut params, "name", Json::Text(String::from_str(name)));
        set_field(&mut params, "public", Json::Bool(public));
        set_field(&mut params, "description", Json::Text(description));
        let mut url = String::from_str("users/");
        url.append(user_id);
        url.append("/playlists");
        self.post(url.as_str(), params)
    }

    /// The request that changes a playlist's name, visibility,
    /// collaboration or description: only what the caller gives is sent.
    pub fn change_user_playlist_detail(
        &self,
        user_id: &str,
        playlist_id: &str,
        name: Option<&str>,
        public: Option<bool>,
        description: Option<String>,
        collaborative: Option<bool>,
    ) -> (request: Request)
        requires
            self.has_auth(),
        ensures
            request@ == self.request_for(
                Method::Put,
                "users/"@ + user_id@ + "/playlists/"@ + playlist_id@,
                with_optional_field(
                    with_optional_field(
                        with_optional_field(
                            with_optional_field(no_fields(), "name"@, json_text_of(text_of(name))),
                            "public"@,
                            flag_of(public),
                        ),
                        "collaborative"@,
                        flag_of(collaborative),
                    ),
                    "description"@,
                    json_text_of(string_of(description)),
                ),
            ),
    {
        let mut params = empty_object();
        if let Some(_name) = name {
            set_field(&mut params, "name", Json::Text(String::from_str(_name)));
        }
        if let Some(_public) = public {
            set_field(&mut params, "public", Json::Bool(_public));
        }
        if let Some(_collaborative) = collaborative {
            set_field(&mut params, "collaborative", Json::Bool(_collaborative));
        }
        if let Some(_description) = description {
            set_field(&mut params, "description", Json::Text(_description));
        }
        let mut url = String::from_str("users/");
        url.append(user_id);
        url.append("/playlists/");
        url.append(playlist_id);
        self.put(url.as_str(), params)
    }

    /// The request that takes a playlist off a user's list.
    pub fn unfollow_user_playlist(&self, user_id: &str, playlist_id: &str) -> (request: Request)
        requires
            self.has_auth(),
        ensures
            request@ == self.request_for(
                Method::Delete,
                "users/"@ + user_id@ + "/playlists/"@ + playlist_id@ + "/followers"@,
                no_fields(),
            ),
    {
        let mut url = String::from_str("users/");
        url.append(user_id);
        url.append("/playlists/");
        url.append(playlist_id);
        url.append("/followers");
        self.delete(url.as_str(), empty_object())
    }

    /// The request that adds tracks to a playlist, at a position where one
    /// is given. The tracks go as their canonical URIs, written one after
    /// the other with nothing between them.
    pub fn add_tracks_to_playlist(
        &self,
        user_id: &str,
        playlist_id: &str,
        track_ids: Vec<String>,
        position: Option<i32>,
    ) -> (request: Request)
        requires
            self.has_auth(),
        ensures
            request@ == self.request_for(
                Method::Post,
                "users/"@ + user_id@ + "/playlists/"@ + canonical_id(
                    Type::Playlist.token(),
                    playlist_id@,
                ) + "/tracks"@,
                with_optional_field(no_fields(), "position"@, number_of(position)).insert(
                    "uris"@,
                    JsonView::Text(
                        joined(
                            canonical_uris(Type::Track.token(), views(track_ids@)),
                            Seq::<char>::empty(),
                        ),
                    ),
                ),
            ),
    {
        let plid = self.get_id(Type::Playlist, playlist_id);
        let uris = join(&self.uris_of(Type::Track, &track_ids), "");
        proof {
            reveal_strlit("");
            assert(""@ =~= Seq::<char>::empty());
        }
        let mut params = empty_object();
        if let Some(_position) = position {
            set_field(&mut params, "position", Json::Number(_position));
        }
        set_field(&mut params, "uris", Json::Text(uris));
        let mut url = String::from_str("users/");
        url.append(user_id);
        url.append("/playlists/");
        url.append(plid.as_str());
        url.append("/tracks");
        self.post(url.as_str(), params)
    }
}

} // verus!
