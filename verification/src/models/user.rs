//! The author of a track or playlist, as the SoundCloud API returns it.
use vstd::prelude::*;
use crate::domain_models::{ApiArtist, AuthorInputSoundcloud};
use crate::text::{int_decimal, i64_to_decimal};
use crate::domain_models::{ApiArtistView, AuthorInputView, opt_str};

verus! {

#[derive(Clone, Debug)]
pub struct User {
    pub id: i64,
    pub avatar_url: Option<String>,
    pub username: String,
}

pub struct UserView {
    pub id: i64,
    pub avatar_url: Option<Seq<char>>,
    pub username: Seq<char>,
}

impl View for User {
    type V = UserView;

    open spec fn view(&self) -> UserView {
        UserView { id: self.id, avatar_url: opt_str(self.avatar_url), username: self.username@ }
    }
}

/// A user as an artist of the music API: the id in decimal, the username,
/// the avatar as picture, never a dummy.
pub open spec fn user_to_artist(u: UserView) -> ApiArtistView {
    ApiArtistView {
        id: int_decimal(u.id as int),
        username: u.username,
        picture: u.avatar_url,
        is_dummy: false,
    }
}

/// A user as an author record for storage: id, username as title, avatar as image.
pub open spec fn user_to_author(u: UserView) -> AuthorInputView {
    AuthorInputView { id: u.id, title: u.username, img: u.avatar_url }
}

impl User {
    /// Converts the user into an artist of the music API.
    pub fn into_api_artist(self) -> (res: ApiArtist)
        ensures
            res@ == user_to_artist(self@),
    {
        ApiArtist {
            id: i64_to_decimal(self.id),
            username: self.username,
            picture: self.avatar_url,
            is_dummy: false,
        }
    }

    /// Converts the user into an author record for storage.
    pub fn into_author_input(self) -> (res: AuthorInputSoundcloud)
        ensures
            res@ == user_to_author(self@),
    {
        AuthorInputSoundcloud { id: self.id, title: self.username, img: self.avatar_url }
    }
}

/// A user as an artist shows the user's id in decimal, name and avatar,
/// and is never a dummy; as an author record, the user's id, name as
/// title and avatar as image.
pub proof fn lemma_user_conversion_fields(u: UserView)
    ensures
        user_to_artist(u).id == int_decimal(u.id as int),
        user_to_artist(u).username == u.username,
        user_to_artist(u).picture == u.avatar_url,
        !user_to_artist(u).is_dummy,
        user_to_author(u).id == u.id,
        user_to_author(u).title == u.username,
        user_to_author(u).img == u.avatar_url,
{
}

} // verus!
