use vstd::prelude::*;
use crate::json::{json_of, member, member_index, member_of, parse, present, present_of, Json};
use crate::request::{
    endpoint_for, endpoint_of, endpoint_tag, tag_of, AddToQueueCommand, Endpoint, GenericCommand,
    LoggingParams, PauseCommand, PlayCommand, PlayOptions, Request, RequestCommand, SeekToCommand,
    SetQueueCommand, SetShufflingCommand, SkipNextCommand, SkipTo, TransferCommand,
    TransferOptions,
};
use crate::state::ProvidedTrack;

verus! {

/// Why an inbound message could not be decoded.
#[derive(Clone, Copy, Debug, PartialEq, Eq, Structural)]
pub enum DecodeError {
    /// The payload is no JSON text.
    Json,
    /// The envelope lacks its message id, sender or command.
    Envelope,
}

pub open spec fn opt_view(o: Option<String>) -> Option<Seq<char>> {
    match o {
        Some(s) => Some(s@),
        None => None,
    }
}

pub open spec fn strs_view(v: Vec<String>) -> Seq<Seq<char>> {
    v@.map_values(|s: String| s@)
}

pub open spec fn opt_strs_view(o: Option<Vec<String>>) -> Option<Seq<Seq<char>>> {
    match o {
        Some(v) => Some(strs_view(v)),
        None => None,
    }
}

/// A required string member.
pub open spec fn req_str(v: Json, key: Seq<char>) -> Option<Seq<char>> {
    match present_of(v, key) {
        Some(Json::Str(s)) => Some(s@),
        _ => None,
    }
}

/// An optional string member: `Some(None)` when absent, `None` when of
/// another type.
pub open spec fn opt_str(v: Json, key: Seq<char>) -> Option<Option<Seq<char>>> {
    match present_of(v, key) {
        None => Some(None),
        Some(Json::Str(s)) => Some(Some(s@)),
        _ => None,
    }
}

/// A string field of a structurally mapped message: absent reads as empty.
pub open spec fn mapped_str(v: Json, key: Seq<char>) -> Option<Seq<char>> {
    match opt_str(v, key) {
        Some(Some(s)) => Some(s),
        Some(None) => Some(Seq::empty()),
        None => None,
    }
}

/// A required `u32` member.
pub open spec fn req_u32(v: Json, key: Seq<char>) -> Option<u32> {
    match present_of(v, key) {
        Some(Json::UInt(n)) => if n <= u32::MAX {
            Some(n as u32)
        } else {
            None
        },
        _ => None,
    }
}

/// A required boolean member.
pub open spec fn req_bool(v: Json, key: Seq<char>) -> Option<bool> {
    match present_of(v, key) {
        Some(Json::Bool(b)) => Some(b),
        _ => None,
    }
}

/// An optional `i64` member.
pub open spec fn opt_i64(v: Json, key: Seq<char>) -> Option<Option<i64>> {
    match present_of(v, key) {
        None => Some(None),
        Some(Json::Int(n)) => Some(Some(n)),
        Some(Json::UInt(n)) => if n <= i64::MAX {
            Some(Some(n as i64))
        } else {
            None
        },
        _ => None,
    }
}

/// An optional list of strings.
pub open spec fn opt_strs(v: Json, key: Seq<char>) -> Option<Option<Seq<Seq<char>>>> {
    match present_of(v, key) {
        None => Some(None),
        Some(Json::Array(a)) => if forall|i: int| 0 <= i < a@.len() ==> (#[trigger] a@[i]) is Str {
            Some(Some(a@.map_values(|x: Json| x->Str_0@)))
        } else {
            None
        },
        _ => None,
    }
}

/// A required object member.
pub open spec fn req_object(v: Json, key: Seq<char>) -> Option<Json> {
    match present_of(v, key) {
        Some(o) => if o is Object {
            Some(o)
        } else {
            None
        },
        None => None,
    }
}

/// The diagnostic fields parse.
pub open spec fn logging_ok(v: Json) -> bool {
    &&& req_object(v, "logging_params"@) is Some
    &&& opt_strs(req_object(v, "logging_params"@).unwrap(), "interaction_ids"@) is Some
    &&& opt_str(req_object(v, "logging_params"@).unwrap(), "device_identifier"@) is Some
    &&& opt_i64(req_object(v, "logging_params"@).unwrap(), "command_initiated_time"@) is Some
    &&& opt_strs(req_object(v, "logging_params"@).unwrap(), "page_instance_ids"@) is Some
    &&& opt_str(req_object(v, "logging_params"@).unwrap(), "command_id"@) is Some
}

/// `lp` holds the diagnostic fields of `v`.
pub open spec fn logging_matches(v: Json, lp: LoggingParams) -> bool {
    let o = req_object(v, "logging_params"@).unwrap();
    &&& opt_strs_view(lp.interaction_ids) == opt_strs(o, "interaction_ids"@).unwrap()
    &&& opt_view(lp.device_identifier) == opt_str(o, "device_identifier"@).unwrap()
    &&& lp.command_initiated_time == opt_i64(o, "command_initiated_time"@).unwrap()
    &&& opt_strs_view(lp.page_instance_ids) == opt_strs(o, "page_instance_ids"@).unwrap()
    &&& opt_view(lp.command_id) == opt_str(o, "command_id"@).unwrap()
}

/// A structurally mapped track parses.
pub open spec fn track_ok(t: Json) -> bool {
    &&& t is Object
    &&& mapped_str(t, "uri"@) is Some
    &&& mapped_str(t, "uid"@) is Some
    &&& mapped_str(t, "provider"@) is Some
}

/// `p` holds the fields of the mapped track `t`.
pub open spec fn track_matches(t: Json, p: ProvidedTrack) -> bool {
    &&& p.uri@ == mapped_str(t, "uri"@).unwrap()
    &&& p.uid@ == mapped_str(t, "uid"@).unwrap()
    &&& p.provider@ == mapped_str(t, "provider"@).unwrap()
}

/// A required list of mapped tracks parses.
pub open spec fn tracks_ok(v: Json, key: Seq<char>) -> bool {
    present_of(v, key) matches Some(Json::Array(a)) && forall|i: int|
        0 <= i < a@.len() ==> track_ok(#[trigger] a@[i])
}

/// `ts` holds the mapped tracks listed under `key`.
pub open spec fn tracks_match(v: Json, key: Seq<char>, ts: Vec<ProvidedTrack>) -> bool {
    present_of(v, key) matches Some(Json::Array(a)) && ts@.len() == a@.len() && forall|i: int|
        0 <= i < a@.len() ==> track_matches(#[trigger] a@[i], ts@[i])
}

/// The optional option overrides of a play command: an object where present.
pub open spec fn overrides_ok(o: Json) -> bool {
    match present_of(o, "player_option_overrides"@) {
        Some(m) => m is Object,
        None => true,
    }
}

/// The fields that endpoint `e` requires are in `v`, each of its type.
pub open spec fn parses(e: Endpoint, v: Json) -> bool {
    &&& logging_ok(v)
    &&& match e {
        Endpoint::Transfer => {
            &&& req_object(v, "options"@) is Some
            &&& req_str(req_object(v, "options"@).unwrap(), "restore_paused"@) is Some
            &&& req_str(req_object(v, "options"@).unwrap(), "restore_position"@) is Some
            &&& req_str(req_object(v, "options"@).unwrap(), "restore_track"@) is Some
            &&& req_str(req_object(v, "options"@).unwrap(), "retain_session"@) is Some
            &&& opt_str(v, "data"@) is Some
            &&& req_str(v, "from_device_identifier"@) is Some
        },
        Endpoint::Play => {
            let o = req_object(v, "options"@).unwrap();
            let s = req_object(o, "skip_to"@).unwrap();
            &&& req_object(v, "context"@) is Some
            &&& req_object(v, "play_origin"@) is Some
            &&& req_object(v, "options"@) is Some
            &&& req_object(o, "skip_to"@) is Some
            &&& req_str(s, "track_uid"@) is Some
            &&& req_str(s, "track_uri"@) is Some
            &&& req_u32(s, "track_index"@) is Some
            &&& overrides_ok(o)
            &&& req_str(o, "license"@) is Some
        },
        Endpoint::SeekTo => req_u32(v, "value"@) is Some && req_u32(v, "position"@) is Some,
        Endpoint::SkipNext => match present_of(v, "track"@) {
            Some(t) => track_ok(t),
            None => true,
        },
        Endpoint::SetShufflingContext => req_bool(v, "value"@) is Some,
        Endpoint::AddToQueue => req_object(v, "track"@) is Some && track_ok(
            req_object(v, "track"@).unwrap(),
        ),
        Endpoint::SetQueue => tracks_ok(v, "next_tracks"@) && tracks_ok(v, "prev_tracks"@)
            && req_str(v, "queue_revision"@) is Some,
        Endpoint::Pause | Endpoint::SkipPrev | Endpoint::Resume => true,
    }
}

/// The typed command `c` holds the fields read from `v`. The structurally
/// mapped objects of a play command are kept as objects.
pub open spec fn fields_match(v: Json, c: RequestCommand) -> bool {
    match c {
        RequestCommand::Transfer(t) => {
            let o = req_object(v, "options"@).unwrap();
            &&& logging_matches(v, t.logging_params)
            &&& opt_view(t.data) == opt_str(v, "data"@).unwrap()
            &&& t.from_device_identifier@ == req_str(v, "from_device_identifier"@).unwrap()
            &&& t.options.restore_paused@ == req_str(o, "restore_paused"@).unwrap()
            &&& t.options.restore_position@ == req_str(o, "restore_position"@).unwrap()
            &&& t.options.restore_track@ == req_str(o, "restore_track"@).unwrap()
            &&& t.options.retain_session@ == req_str(o, "retain_session"@).unwrap()
        },
        RequestCommand::Play(p) => {
            let o = req_object(v, "options"@).unwrap();
            let s = req_object(o, "skip_to"@).unwrap();
            &&& logging_matches(v, p.logging_params)
            &&& p.context is Object
            &&& p.play_origin is Object
            &&& p.options.skip_to.track_uid@ == req_str(s, "track_uid"@).unwrap()
            &&& p.options.skip_to.track_uri@ == req_str(s, "track_uri"@).unwrap()
            &&& p.options.skip_to.track_index == req_u32(s, "track_index"@).unwrap()
            &&& p.options.license@ == req_str(o, "license"@).unwrap()
            &&& (p.options.player_option_overrides is Some <==> present_of(
                o,
                "player_option_overrides"@,
            ) is Some)
        },
        RequestCommand::Pause(p) => logging_matches(v, p.logging_params),
        RequestCommand::SeekTo(s) => {
            &&& logging_matches(v, s.logging_params)
            &&& s.value == req_u32(v, "value"@).unwrap()
            &&& s.position == req_u32(v, "position"@).unwrap()
        },
        RequestCommand::SkipNext(s) => {
            &&& logging_matches(v, s.logging_params)
            &&& match present_of(v, "track"@) {
                Some(t) => s.track is Some && track_matches(t, s.track.unwrap()),
                None => s.track is None,
            }
        },
        RequestCommand::SetShufflingContext(s) => {
            &&& logging_matches(v, s.logging_params)
            &&& s.value == req_bool(v, "value"@).unwrap()
        },
        RequestCommand::AddToQueue(a) => {
            &&& logging_matches(v, a.logging_params)
            &&& track_matches(req_object(v, "track"@).unwrap(), a.track)
        },
        RequestCommand::SetQueue(q) => {
            &&& logging_matches(v, q.logging_params)
            &&& tracks_match(v, "next_tracks"@, q.next_tracks)
            &&& tracks_match(v, "prev_tracks"@, q.prev_tracks)
            &&& q.queue_revision@ == req_str(v, "queue_revision"@).unwrap()
        },
        RequestCommand::SkipPrev(g) => logging_matches(v, g.logging_params),
        RequestCommand::Resume(g) => logging_matches(v, g.logging_params),
        RequestCommand::Unknown(_) => false,
    }
}

/// `r` is what the command object `v` decodes to: the typed command of a
/// tag of the vocabulary whose fields parse, else `v` itself as raw.
pub open spec fn decoded(v: Json, r: RequestCommand) -> bool {
    match tag_of(v) {
        Some(t) => match endpoint_for(t) {
            Some(e) => if parses(e, v) {
                r.endpoint_spec() == Some(e) && fields_match(v, r)
            } else {
                r == RequestCommand::Unknown(v)
            },
            None => r == RequestCommand::Unknown(v),
        },
        None => r == RequestCommand::Unknown(v),
    }
}

/// `r` is what the envelope `v` decodes to: none unless its message id fits
/// in `u32`, its sender is a string and it has a command.
pub open spec fn request_decoded(v: Json, r: Option<Request>) -> bool {
    match (member_of(v, "message_id"@), member_of(v, "sent_by_device_id"@), member_of(v, "command"@)) {
        (Some(Json::UInt(n)), Some(Json::Str(s)), Some(c)) => if n <= u32::MAX {
            &&& r is Some
            &&& r.unwrap().message_id == n as u32
            &&& r.unwrap().sent_by_device_id@ == s@
            &&& decoded(c, r.unwrap().command)
        } else {
            r is None
        },
        _ => r is None,
    }
}

/// `r` is the outcome of decoding the parse result `parsed`.
pub open spec fn parsed_request(parsed: Option<Json>, r: Result<Request, DecodeError>) -> bool {
    match parsed {
        None => r == Err::<Request, DecodeError>(DecodeError::Json),
        Some(j) => match r {
            Ok(q) => request_decoded(j, Some(q)),
            Err(e) => e == DecodeError::Envelope && request_decoded(j, None),
        },
    }
}

fn req_string(v: &Json, key: &str) -> (r: Result<String, ()>)
    ensures
        match req_str(*v, key@) {
            Some(s) => r matches Ok(x) && x@ == s,
            None => r is Err,
        },
{
    match present(v, key) {
        Some(Json::Str(s)) => Ok(s.clone()),
        _ => Err(()),
    }
}

fn opt_string(v: &Json, key: &str) -> (r: Result<Option<String>, ()>)
    ensures
        match opt_str(*v, key@) {
            Some(s) => r matches Ok(x) && opt_view(x) == s,
            None => r is Err,
        },
{
    match present(v, key) {
        None => Ok(None),
        Some(Json::Str(s)) => Ok(Some(s.clone())),
        _ => Err(()),
    }
}

fn mapped_string(v: &Json, key: &str) -> (r: Result<String, ()>)
    ensures
        match mapped_str(*v, key@) {
            Some(s) => r matches Ok(x) && x@ == s,
            None => r is Err,
        },
{
    match opt_string(v, key) {
        Ok(Some(s)) => Ok(s),
        Ok(None) => Ok(String::new()),
        Err(()) => Err(()),
    }
}

fn req_number(v: &Json, key: &str) -> (r: Result<u32, ()>)
    ensures
        match req_u32(*v, key@) {
            Some(n) => r == Ok::<u32, ()>(n),
            None => r is Err,
        },
{
    match present(v, key) {
        Some(Json::UInt(n)) => if *n <= u32::MAX as u64 {
            Ok(*n as u32)
        } else {
            Err(())
        },
        _ => Err(()),
    }
}

fn req_flag(v: &Json, key: &str) -> (r: Result<bool, ()>)
    ensures
        match req_bool(*v, key@) {
            Some(b) => r == Ok::<bool, ()>(b),
            None => r is Err,
        },
{
    match present(v, key) {
        Some(Json::Bool(b)) => Ok(*b),
        _ => Err(()),
    }
}

fn opt_integer(v: &Json, key: &str) -> (r: Result<Option<i64>, ()>)
    ensures
        match opt_i64(*v, key@) {
            Some(n) => r == Ok::<Option<i64>, ()>(n),
            None => r is Err,
        },
{
    match present(v, key) {
        None => Ok(None),
        Some(Json::Int(n)) => Ok(Some(*n)),
        Some(Json::UInt(n)) => if *n <= i64::MAX as u64 {
            Ok(Some(*n as i64))
        } else {
            Err(())
        },
        _ => Err(()),
    }
}

fn opt_strings(v: &Json, key: &str) -> (r: Result<Option<Vec<String>>, ()>)
    ensures
        match opt_strs(*v, key@) {
            Some(s) => r matches Ok(x) && opt_strs_view(x) == s,
            None => r is Err,
        },
{
    let items = match present(v, key) {
        None => return Ok(None),
        Some(Json::Array(a)) => a,
        _ => return Err(()),
    };
    let mut out: Vec<String> = Vec::new();
    let mut i: usize = 0;
    while i < items.len()
        invariant
            present_of(*v, key@) == Some(Json::Array(*items)),
            i <= items@.len(),
            out@.len() == i,
            forall|j: int| 0 <= j < i ==> (#[trigger] items@[j]) is Str,
            forall|j: int| 0 <= j < i ==> (#[trigger] out@[j])@ == items@[j]->Str_0@,
        decreases items@.len() - i,
    {
        match &items[i] {
            Json::Str(s) => out.push(s.clone()),
            _ => {
                assert(!(items@[i as int] is Str));
                return Err(());
            },
        }
        i += 1;
    }
    assert(strs_view(out) =~= items@.map_values(|x: Json| x->Str_0@));
    Ok(Some(out))
}

fn req_obj<'a>(v: &'a Json, key: &str) -> (r: Result<&'a Json, ()>)
    ensures
        match req_object(*v, key@) {
            Some(o) => r matches Ok(x) && *x == o,
            None => r is Err,
        },
{
    match present(v, key) {
        Some(m) => match m {
            Json::Object(_) => Ok(m),
            _ => Err(()),
        },
        None => Err(()),
    }
}

fn logging_params(v: &Json) -> (r: Result<LoggingParams, ()>)
    ensures
        r is Ok <==> logging_ok(*v),
        r matches Ok(lp) ==> logging_matches(*v, lp),
{
    let lp = req_obj(v, "logging_params")?;
    let interaction_ids = opt_strings(lp, "interaction_ids")?;
    let device_identifier = opt_string(lp, "device_identifier")?;
    let command_initiated_time = opt_integer(lp, "command_initiated_time")?;
    let page_instance_ids = opt_strings(lp, "page_instance_ids")?;
    let command_id = opt_string(lp, "command_id")?;
    Ok(
        LoggingParams {
            interaction_ids,
            device_identifier,
            command_initiated_time,
            page_instance_ids,
            command_id,
        },
    )
}

fn mapped_track(t: &Json) -> (r: Result<ProvidedTrack, ()>)
    ensures
        r is Ok <==> track_ok(*t),
        r matches Ok(p) ==> track_matches(*t, p),
{
    match t {
        Json::Object(_) => {},
        _ => return Err(()),
    }
    let uri = mapped_string(t, "uri")?;
    let uid = mapped_string(t, "uid")?;
    let provider = mapped_string(t, "provider")?;
    Ok(ProvidedTrack { uri, uid, provider })
}

fn mapped_tracks(v: &Json, key: &str) -> (r: Result<Vec<ProvidedTrack>, ()>)
    ensures
        r is Ok <==> tracks_ok(*v, key@),
        r matches Ok(ts) ==> tracks_match(*v, key@, ts),
{
    let items = match present(v, key) {
        Some(Json::Array(a)) => a,
        _ => return Err(()),
    };
    let mut out: Vec<ProvidedTrack> = Vec::new();
    let mut i: usize = 0;
    while i < items.len()
        invariant
            present_of(*v, key@) == Some(Json::Array(*items)),
            i <= items@.len(),
            out@.len() == i,
            forall|j: int| 0 <= j < i ==> track_ok(#[trigger] items@[j]),
            forall|j: int| 0 <= j < i ==> track_matches(#[trigger] items@[j], out@[j]),
        decreases items@.len() - i,
    {
        let t = match mapped_track(&items[i]) {
            Ok(t) => t,
            Err(()) => {
                assert(!track_ok(items@[i as int]));
                assert(!tracks_ok(*v, key@)) by {
                    let a = present_of(*v, key@)->Some_0->Array_0;
                    assert(a == *items);
                    assert(!track_ok(a@[i as int]));
                }
                return Err(());
            },
        };
        out.push(t);
        i += 1;
    }
    Ok(out)
}

/// The typed payload of a known endpoint, or `Err` when its fields do not
/// parse.
fn typed_command(e: Endpoint, v: &Json) -> (r: Result<RequestCommand, ()>)
    ensures
        r is Ok <==> parses(e, *v),
        r matches Ok(c) ==> c.endpoint_spec() == Some(e) && fields_match(*v, c),
{
    let logging_params = logging_params(v)?;
    match e {
        Endpoint::Transfer => {
            let o = req_obj(v, "options")?;
            let restore_paused = req_string(o, "restore_paused")?;
            let restore_position = req_string(o, "restore_position")?;
            let restore_track = req_string(o, "restore_track")?;
            let retain_session = req_string(o, "retain_session")?;
            let data = opt_string(v, "data")?;
            let from_device_identifier = req_string(v, "from_device_identifier")?;
            let options = TransferOptions {
                restore_paused,
                restore_position,
                restore_track,
                retain_session,
            };
            Ok(
                RequestCommand::Transfer(
                    TransferCommand { data, options, from_device_identifier, logging_params },
                ),
            )
        },
        Endpoint::Play => {
            let context = req_obj(v, "context")?.copy_object();
            let play_origin = req_obj(v, "play_origin")?.copy_object();
            let o = req_obj(v, "options")?;
            let s = req_obj(o, "skip_to")?;
            let track_uid = req_string(s, "track_uid")?;
            let track_uri = req_string(s, "track_uri")?;
            let track_index = req_number(s, "track_index")?;
            let player_option_overrides = match present(o, "player_option_overrides") {
                Some(m) => match m {
                    Json::Object(_) => Some(m.copy_object()),
                    _ => return Err(()),
                },
                None => None,
            };
            let license = req_string(o, "license")?;
            let options = PlayOptions {
                skip_to: SkipTo { track_uid, track_uri, track_index },
                player_option_overrides,
                license,
            };
            Ok(
                RequestCommand::Play(
                    Box::new(PlayCommand { context, play_origin, options, logging_params }),
                ),
            )
        },
        Endpoint::Pause => Ok(RequestCommand::Pause(PauseCommand { logging_params })),
        Endpoint::SeekTo => {
            let value = req_number(v, "value")?;
            let position = req_number(v, "position")?;
            Ok(RequestCommand::SeekTo(SeekToCommand { value, position, logging_params }))
        },
        Endpoint::SkipNext => {
            let track = match present(v, "track") {
                Some(t) => Some(mapped_track(t)?),
                None => None,
            };
            Ok(RequestCommand::SkipNext(SkipNextCommand { track, logging_params }))
        },
        Endpoint::SetShufflingContext => {
            let value = req_flag(v, "value")?;
            Ok(RequestCommand::SetShufflingContext(SetShufflingCommand { value, logging_params }))
        },
        Endpoint::AddToQueue => {
            let track = mapped_track(req_obj(v, "track")?)?;
            Ok(RequestCommand::AddToQueue(AddToQueueCommand { track, logging_params }))
        },
        Endpoint::SetQueue => {
            let next_tracks = mapped_tracks(v, "next_tracks")?;
            let prev_tracks = mapped_tracks(v, "prev_tracks")?;
            let queue_revision = req_string(v, "queue_revision")?;
            Ok(
                RequestCommand::SetQueue(
                    SetQueueCommand { next_tracks, prev_tracks, queue_revision, logging_params },
                ),
            )
        },
        Endpoint::SkipPrev => Ok(RequestCommand::SkipPrev(GenericCommand { logging_params })),
        Endpoint::Resume => Ok(RequestCommand::Resume(GenericCommand { logging_params })),
    }
}

/// Decodes a command object. It never fails: a tag outside the vocabulary,
/// or fields that do not parse, keep the value itself as a raw command.
pub fn decode_command(v: Json) -> (r: RequestCommand)
    ensures
        decoded(v, r),
{
    let e = match endpoint_tag(&v) {
        Some(t) => endpoint_of(t),
        None => None,
    };
    match e {
        Some(e) => match typed_command(e, &v) {
            Ok(c) => c,
            Err(()) => RequestCommand::Unknown(v),
        },
        None => RequestCommand::Unknown(v),
    }
}

/// Decodes an envelope: none when its message id, sender or command is
/// missing, or the first two are of the wrong type.
pub fn decode_request(v: Json) -> (r: Option<Request>)
    ensures
        request_decoded(v, r),
{
    let message_id = match member(&v, "message_id") {
        Some(Json::UInt(n)) => if *n <= u32::MAX as u64 {
            *n as u32
        } else {
            return None;
        },
        _ => return None,
    };
    let sent_by_device_id = match member(&v, "sent_by_device_id") {
        Some(Json::Str(s)) => s.clone(),
        _ => return None,
    };
    let mut fields = match v {
        Json::Object(f) => f,
        _ => return None,
    };
    let i = match member_index(&fields, "command") {
        Some(i) => i,
        None => return None,
    };
    let (_, c) = fields.remove(i);
    Some(Request { message_id, sent_by_device_id, command: decode_command(c) })
}

/// The envelope decoded from a parse result, or the error for it.
pub fn request_from_parsed(parsed: Option<Json>) -> (r: Result<Request, DecodeError>)
    ensures
        parsed_request(parsed, r),
{
    match parsed {
        Some(v) => match decode_request(v) {
            Some(req) => Ok(req),
            None => Err(DecodeError::Envelope),
        },
        None => Err(DecodeError::Json),
    }
}

/// Decodes an inbound message from its JSON text.
pub fn parse_request(bytes: &[u8]) -> (r: Result<Request, DecodeError>)
    ensures
        parsed_request(json_of(bytes@), r),
{
    request_from_parsed(parse(bytes))
}

} // verus!
