use vstd::prelude::*;

verus! {

/// The kinds of catalog resource that an identifier can name.
#[derive(Clone, Copy, Debug, PartialEq, Eq, Structural)]
pub enum Type {
    Artist,
    Album,
    Track,
    Playlist,
    User,
}

impl Type {
    /// The lower-case token that names this kind in URIs and in URL paths.
    pub open spec fn token(self) -> Seq<char> {
        match self {
            Type::Artist => "artist"@,
            Type::Album => "album"@,
            Type::Track => "track"@,
            Type::Playlist => "playlist"@,
            Type::User => "user"@,
        }
    }

    pub fn as_str(&self) -> (s: &'static str)
        ensures
            s@ == self.token(),
    {
        match self {
            Type::Artist => "artist",
            Type::Album => "album",
            Type::Track => "track",
            Type::Playlist => "playlist",
            Type::User => "user",
        }
    }
}

/// The kinds of release by which an artist's albums can be narrowed.
#[derive(Clone, Copy, Debug, PartialEq, Eq, Structural)]
pub enum AlbumType {
    Album,
    Single,
    AppearsOn,
    Compilation,
}

impl AlbumType {
    /// The word that names this kind of release in a query.
    pub open spec fn token(self) -> Seq<char> {
        match self {
            AlbumType::Album => "album"@,
            AlbumType::Single => "single"@,
            AlbumType::AppearsOn => "appears_on"@,
            AlbumType::Compilation => "compilation"@,
        }
    }

    pub fn as_str(&self) -> (s: &'static str)
        ensures
            s@ == self.token(),
    {
        match self {
            AlbumType::Album => "album",
            AlbumType::Single => "single",
            AlbumType::AppearsOn => "appears_on",
            AlbumType::Compilation => "compilation",
        }
    }
}

} // verus!
