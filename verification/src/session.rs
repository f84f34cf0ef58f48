//! What a caller's thread remembers between calls: the last error message and
//! the name of the video encoder that the last transcoding job used.
use crate::text::into_cstring;
use vstd::prelude::*;

verus! {

/// The memory of one thread of the caller.
pub struct Session {
    pub last_err: String,
    pub last_venc: String,
}

/// The texts that a [`Session`] holds.
pub struct SessionView {
    pub last_err: Seq<char>,
    pub last_venc: Seq<char>,
}

impl View for Session {
    type V = SessionView;

    open spec fn view(&self) -> SessionView {
        SessionView { last_err: self.last_err@, last_venc: self.last_venc@ }
    }
}

impl SessionView {
    /// The same session, with `message` as its last error.
    pub open spec fn failed_with(self, message: Seq<char>) -> SessionView {
        SessionView { last_err: message, last_venc: self.last_venc }
    }

    /// The same session, with `name` as the encoder that was last used.
    pub open spec fn chose(self, name: Seq<char>) -> SessionView {
        SessionView { last_err: self.last_err, last_venc: name }
    }
}

impl Session {
    /// A session in which nothing has failed and no encoder was chosen.
    pub fn new() -> (s: Session)
        ensures
            s@ == (SessionView { last_err: Seq::empty(), last_venc: Seq::empty() }),
    {
        Session { last_err: String::new(), last_venc: String::new() }
    }
}

/// The message of operation `op` that failed with error `e`.
pub open spec fn prefixed(op: Seq<char>, e: Seq<char>) -> Seq<char> {
    op + ": "@ + e
}

/// Remembers `s` as the last error message.
pub fn set_err(session: &mut Session, s: &str)
    ensures
        final(session)@ == old(session)@.failed_with(s@),
{
    session.last_err = s.to_string();
}

/// Remembers that operation `op` failed with error `e`.
pub fn set_op_err(session: &mut Session, op: &str, e: &str)
    ensures
        final(session)@ == old(session)@.failed_with(prefixed(op@, e@)),
{
    let message: String = op.to_string().concat(": ").concat(e);
    set_err(session, message.as_str());
}

/// Remembers `name` as the video encoder that a transcoding job uses.
pub fn set_video_encoder(session: &mut Session, name: &str)
    ensures
        final(session)@ == old(session)@.chose(name@),
{
    session.last_venc = name.to_string();
}

/// The last error message, empty if there was none; `None` where it cannot be
/// a C string.
pub fn chuks_ffmpeg_last_error(session: &Session) -> (r: Option<String>)
    ensures
        r is Some <==> !session@.last_err.contains('\0'),
        r is Some ==> r->0@ == session@.last_err,
{
    into_cstring(session.last_err.clone())
}

/// The name of the video encoder that the last transcoding job used, empty if
/// there was none; `None` where it cannot be a C string.
pub fn chuks_ffmpeg_last_video_encoder(session: &Session) -> (r: Option<String>)
    ensures
        r is Some <==> !session@.last_venc.contains('\0'),
        r is Some ==> r->0@ == session@.last_venc,
{
    into_cstring(session.last_venc.clone())
}

/// The version text of the media libraries, where they give one, and
/// `unknown` where they do not; `None` where it cannot be a C string.
pub fn chuks_ffmpeg_version(info: Option<String>) -> (r: Option<String>)
    ensures
        info is None ==> r is Some && r->0@ == "unknown"@,
        info is Some ==> (r is Some <==> !info->0@.contains('\0')),
        info is Some && r is Some ==> r->0@ == info->0@,
{
    match info {
        Some(s) => into_cstring(s),
        None => {
            proof {
                reveal_strlit("unknown");
            }
            into_cstring("unknown".to_string())
        },
    }
}

} // verus!
