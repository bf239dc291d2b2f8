use vstd::prelude::*;

verus! {

/// The login state: the `MUSIC_U` cookie, if one was saved.
pub struct Session {
    pub music_u: Option<String>,
}

/// The fixed part of the cookie header, before the `MUSIC_U` value.
pub open spec fn cookie_prefix() -> Seq<char> {
    "os=pc; __remember_me=true; MUSIC_U="@
}

/// A session is logged in when it holds a non-empty `MUSIC_U` value.
pub open spec fn logged_in(session: Session) -> bool {
    session.music_u matches Some(m) && m@.len() > 0
}

impl Default for Session {
    fn default() -> (session: Self)
        ensures
            session.music_u is None,
    {
        Session { music_u: None }
    }
}

impl Session {
    /// The `Cookie` header that authenticates requests, if a `MUSIC_U`
    /// value is set.
    pub fn cookie_header(&self) -> (header: Option<String>)
        ensures
            match (header, self.music_u) {
                (Some(h), Some(m)) => h@ == cookie_prefix() + m@,
                (None, None) => true,
                _ => false,
            },
    {
        match &self.music_u {
            Some(music_u) => {
                let mut header = String::from_str("os=pc; __remember_me=true; MUSIC_U=");
                header.append(music_u.as_str());
                Some(header)
            },
            None => None,
        }
    }

    /// Whether a non-empty `MUSIC_U` value is set.
    pub fn is_logged_in(&self) -> (logged: bool)
        ensures
            logged == logged_in(*self),
    {
        match &self.music_u {
            Some(music_u) => !music_u.as_str().is_empty(),
            None => false,
        }
    }
}

/// The cookie header sends the `MUSIC_U` value last, right after
/// `MUSIC_U=`, behind the fixed `os` and `__remember_me` settings, so the
/// value is the whole rest of the header.
pub proof fn lemma_cookie_ends_with_music_u(music_u: Seq<char>)
    ensures
        cookie_prefix() + music_u == "os=pc; __remember_me=true; "@ + "MUSIC_U="@ + music_u,
        (cookie_prefix() + music_u).subrange(
            cookie_prefix().len() as int,
            (cookie_prefix() + music_u).len() as int,
        ) == music_u,
{
    reveal_strlit("os=pc; __remember_me=true; MUSIC_U=");
    reveal_strlit("os=pc; __remember_me=true; ");
    reveal_strlit("MUSIC_U=");
    assert(cookie_prefix() =~= "os=pc; __remember_me=true; "@ + "MUSIC_U="@);
    assert((cookie_prefix() + music_u).subrange(
        cookie_prefix().len() as int,
        (cookie_prefix() + music_u).len() as int,
    ) =~= music_u);
}

/// A session is logged in exactly when it holds a `MUSIC_U` value that is
/// not empty.
pub proof fn lemma_logged_in_means_nonempty_music_u(session: Session)
    ensures
        logged_in(session) <==> (session.music_u is Some && session.music_u->0@.len() != 0),
{
}

/// A logged-in session always sends a cookie header.
pub proof fn lemma_logged_in_has_cookie(session: Session)
    requires
        logged_in(session),
    ensures
        session.music_u is Some,
{
}

} // verus!
