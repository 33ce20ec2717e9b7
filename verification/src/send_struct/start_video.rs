use vstd::prelude::*;
use crate::text::owned;

verus! {

/// A video stream offered by a client: its kind, id and quality.
#[derive(Clone, Debug)]
pub struct Struct {
    pub kind: String,
    pub rid: String,
    pub quality: i64,
}

/// What a video start carries.
#[derive(Clone, Debug)]
pub struct StartVideoData {
    pub server_id: String,
    pub user_id: String,
    pub session_id: String,
    pub token: String,
    pub max_secure_frames_version: i64,
    pub video: bool,
    pub streams: Vec<Struct>,
}

/// The voice-server command (opcode 0) that identifies a video connection.
#[derive(Clone, Debug)]
pub struct StartVideo {
    pub op: i64,
    pub d: StartVideoData,
}

impl StartVideo {
    /// Identifies on server `serv_id` as `user_id` in session `session_id` with `token`,
    /// offering one video stream (`video`, id `100`, quality 100).
    pub fn _new(serv_id: String, user_id: String, session_id: String, token: String) -> (r: Self)
        ensures
            r.op == 0,
            r.d.server_id == serv_id,
            r.d.user_id == user_id,
            r.d.session_id == session_id,
            r.d.token == token,
            r.d.max_secure_frames_version == 0,
            r.d.video,
            r.d.streams@.len() == 1,
            r.d.streams@[0].kind@ == "video"@,
            r.d.streams@[0].rid@ == "100"@,
            r.d.streams@[0].quality == 100,
    {
        let mut streams: Vec<Struct> = Vec::new();
        streams.push(Struct { kind: owned("video"), rid: owned("100"), quality: 100 });
        StartVideo {
            op: 0,
            d: StartVideoData {
                server_id: serv_id,
                user_id,
                session_id,
                token,
                max_secure_frames_version: 0,
                video: true,
                streams,
            },
        }
    }
}

} // verus!
