use vstd::prelude::*;
use vstd::string::StringExecFns;
use vstd::string::StrSliceExecFns;
use crate::json::{member, member_of, Json};
use crate::state::ProvidedTrack;

verus! {


/// An inbound command envelope.
#[derive(Clone)]
pub struct Request {
    pub message_id: u32,
    pub sent_by_device_id: String,
    pub command: RequestCommand,
}

/// The typed commands, and the raw value of any command outside the
/// vocabulary or whose fields did not parse.
#[derive(Clone)]
pub enum RequestCommand {
    Transfer(TransferCommand),
    Play(Box<PlayCommand>),
    Pause(PauseCommand),
    SeekTo(SeekToCommand),
    SkipNext(SkipNextCommand),
    SetShufflingContext(SetShufflingCommand),
    AddToQueue(AddToQueueCommand),
    SetQueue(SetQueueCommand),
    SkipPrev(GenericCommand),
    Resume(GenericCommand),
    Unknown(Json),
}

/// Hands over playback from another device. `data` is the embedded transfer
/// state as received, absent when the payload carries none.
#[derive(Clone)]
pub struct TransferCommand {
    pub data: Option<String>,
    pub options: TransferOptions,
    pub from_device_identifier: String,
    pub logging_params: LoggingParams,
}

/// Starts a context; its structurally mapped objects are carried as values.
#[derive(Clone)]
pub struct PlayCommand {
    pub context: Json,
    pub play_origin: Json,
    pub options: PlayOptions,
    pub logging_params: LoggingParams,
}

#[derive(Clone)]
pub struct PauseCommand {
    pub logging_params: LoggingParams,
}

#[derive(Clone)]
pub struct SeekToCommand {
    pub value: u32,
    pub position: u32,
    pub logging_params: LoggingParams,
}

#[derive(Clone)]
pub struct SkipNextCommand {
    pub track: Option<ProvidedTrack>,
    pub logging_params: LoggingParams,
}

#[derive(Clone)]
pub struct SetShufflingCommand {
    pub value: bool,
    pub logging_params: LoggingParams,
}

#[derive(Clone)]
pub struct AddToQueueCommand {
    pub track: ProvidedTrack,
    pub logging_params: LoggingParams,
}

/// Replaces the queue. `queue_revision` is the revision before the update.
#[derive(Clone)]
pub struct SetQueueCommand {
    pub next_tracks: Vec<ProvidedTrack>,
    pub prev_tracks: Vec<ProvidedTrack>,
    pub queue_revision: String,
    pub logging_params: LoggingParams,
}

#[derive(Clone)]
pub struct GenericCommand {
    pub logging_params: LoggingParams,
}

#[derive(Clone)]
pub struct TransferOptions {
    pub restore_paused: String,
    pub restore_position: String,
    pub restore_track: String,
    pub retain_session: String,
}

#[derive(Clone)]
pub struct PlayOptions {
    pub skip_to: SkipTo,
    pub player_option_overrides: Option<Json>,
    pub license: String,
}

#[derive(Clone)]
pub struct SkipTo {
    pub track_uid: String,
    pub track_uri: String,
    pub track_index: u32,
}

/// Diagnostic correlation fields, carried through unread.
#[derive(Clone)]
pub struct LoggingParams {
    pub interaction_ids: Option<Vec<String>>,
    pub device_identifier: Option<String>,
    pub command_initiated_time: Option<i64>,
    pub page_instance_ids: Option<Vec<String>>,
    pub command_id: Option<String>,
}

/// The known command tags.
#[derive(Clone, Copy, Debug, PartialEq, Eq, Structural)]
pub enum Endpoint {
    Transfer,
    Play,
    Pause,
    SeekTo,
    SkipNext,
    SetShufflingContext,
    AddToQueue,
    SetQueue,
    SkipPrev,
    Resume,
}

/// The canonical tag of an endpoint.
pub open spec fn endpoint_name(e: Endpoint) -> Seq<char> {
    match e {
        Endpoint::Transfer => "transfer"@,
        Endpoint::Play => "play"@,
        Endpoint::Pause => "pause"@,
        Endpoint::SeekTo => "seek_to"@,
        Endpoint::SkipNext => "skip_next"@,
        Endpoint::SetShufflingContext => "set_shuffling_context"@,
        Endpoint::AddToQueue => "add_to_queue"@,
        Endpoint::SetQueue => "set_queue"@,
        Endpoint::SkipPrev => "skip_prev"@,
        Endpoint::Resume => "resume"@,
    }
}

/// `c` is `lower`, or its ASCII upper-case form.
pub open spec fn char_matches(c: char, lower: char) -> bool {
    c == lower || (65 <= c as u32 <= 90 && c as u32 + 32 == lower as u32)
}

/// `s` spells the lower-case tag `t`, ignoring ASCII case.
pub open spec fn eq_ignore_case(s: Seq<char>, t: Seq<char>) -> bool {
    s.len() == t.len() && forall|i: int| 0 <= i < s.len() ==> char_matches(#[trigger] s[i], t[i])
}

/// The endpoint that a tag names, if any.
pub open spec fn endpoint_for(s: Seq<char>) -> Option<Endpoint> {
    if eq_ignore_case(s, "transfer"@) {
        Some(Endpoint::Transfer)
    } else if eq_ignore_case(s, "play"@) {
        Some(Endpoint::Play)
    } else if eq_ignore_case(s, "pause"@) {
        Some(Endpoint::Pause)
    } else if eq_ignore_case(s, "seek_to"@) {
        Some(Endpoint::SeekTo)
    } else if eq_ignore_case(s, "skip_next"@) {
        Some(Endpoint::SkipNext)
    } else if eq_ignore_case(s, "set_shuffling_context"@) {
        Some(Endpoint::SetShufflingContext)
    } else if eq_ignore_case(s, "add_to_queue"@) {
        Some(Endpoint::AddToQueue)
    } else if eq_ignore_case(s, "set_queue"@) {
        Some(Endpoint::SetQueue)
    } else if eq_ignore_case(s, "skip_prev"@) {
        Some(Endpoint::SkipPrev)
    } else if eq_ignore_case(s, "resume"@) {
        Some(Endpoint::Resume)
    } else {
        None
    }
}

/// The label of a command outside the vocabulary: its raw tag, else `???`.
pub open spec fn unknown_label_of(endpoint: Option<Seq<char>>) -> Seq<char> {
    match endpoint {
        Some(e) => e,
        None => "???"@,
    }
}

/// Whether `s` spells the lower-case tag `t`, ignoring ASCII case.
pub fn matches_ignoring_case(s: &str, t: &str) -> (r: bool)
    ensures
        r == eq_ignore_case(s@, t@),
{
    let n = s.unicode_len();
    if n != t.unicode_len() {
        return false;
    }
    let mut i: usize = 0;
    while i < n
        invariant
            n == s@.len(),
            n == t@.len(),
            i <= n,
            forall|j: int| 0 <= j < i ==> char_matches(#[trigger] s@[j], t@[j]),
        decreases n - i,
    {
        let c = s.get_char(i);
        let l = t.get_char(i);
        let cu = c as u32;
        if !(c == l || (65 <= cu && cu <= 90 && cu + 32 == l as u32)) {
            return false;
        }
        i += 1;
    }
    true
}

/// The endpoint that a command tag names, compared ignoring ASCII case.
pub fn endpoint_of(tag: &str) -> (r: Option<Endpoint>)
    ensures
        r == endpoint_for(tag@),
{
    if matches_ignoring_case(tag, "transfer") {
        Some(Endpoint::Transfer)
    } else if matches_ignoring_case(tag, "play") {
        Some(Endpoint::Play)
    } else if matches_ignoring_case(tag, "pause") {
        Some(Endpoint::Pause)
    } else if matches_ignoring_case(tag, "seek_to") {
        Some(Endpoint::SeekTo)
    } else if matches_ignoring_case(tag, "skip_next") {
        Some(Endpoint::SkipNext)
    } else if matches_ignoring_case(tag, "set_shuffling_context") {
        Some(Endpoint::SetShufflingContext)
    } else if matches_ignoring_case(tag, "add_to_queue") {
        Some(Endpoint::AddToQueue)
    } else if matches_ignoring_case(tag, "set_queue") {
        Some(Endpoint::SetQueue)
    } else if matches_ignoring_case(tag, "skip_prev") {
        Some(Endpoint::SkipPrev)
    } else if matches_ignoring_case(tag, "resume") {
        Some(Endpoint::Resume)
    } else {
        None
    }
}

impl Endpoint {
    /// The canonical tag of this endpoint.
    pub fn name(&self) -> (r: String)
        ensures
            r@ == endpoint_name(*self),
    {
        match self {
            Endpoint::Transfer => String::from_str("transfer"),
            Endpoint::Play => String::from_str("play"),
            Endpoint::Pause => String::from_str("pause"),
            Endpoint::SeekTo => String::from_str("seek_to"),
            Endpoint::SkipNext => String::from_str("skip_next"),
            Endpoint::SetShufflingContext => String::from_str("set_shuffling_context"),
            Endpoint::AddToQueue => String::from_str("add_to_queue"),
            Endpoint::SetQueue => String::from_str("set_queue"),
            Endpoint::SkipPrev => String::from_str("skip_prev"),
            Endpoint::Resume => String::from_str("resume"),
        }
    }
}

/// The label of a command outside the vocabulary, from the tag found in
/// its raw value.
pub fn unknown_label(endpoint: Option<&str>) -> (r: String)
    ensures
        r@ == unknown_label_of(
            match endpoint {
                Some(e) => Some(e@),
                None => None,
            },
        ),
{
    match endpoint {
        Some(e) => String::from_str(e),
        None => String::from_str("???"),
    }
}

/// The `endpoint` tag of a raw command, where it is a string.
pub open spec fn tag_of(v: Json) -> Option<Seq<char>> {
    match member_of(v, "endpoint"@) {
        Some(Json::Str(s)) => Some(s@),
        _ => None,
    }
}

/// The `endpoint` tag of a raw command, where it is a string.
pub fn endpoint_tag(v: &Json) -> (r: Option<&str>)
    ensures
        match r {
            Some(t) => tag_of(*v) == Some(t@),
            None => tag_of(*v).is_none(),
        },
{
    match member(v, "endpoint") {
        Some(Json::Str(s)) => Some(s.as_str()),
        _ => None,
    }
}

impl RequestCommand {
    /// The endpoint of a typed command; none for a raw one.
    pub open spec fn endpoint_spec(&self) -> Option<Endpoint> {
        match self {
            RequestCommand::Transfer(_) => Some(Endpoint::Transfer),
            RequestCommand::Play(_) => Some(Endpoint::Play),
            RequestCommand::Pause(_) => Some(Endpoint::Pause),
            RequestCommand::SeekTo(_) => Some(Endpoint::SeekTo),
            RequestCommand::SkipNext(_) => Some(Endpoint::SkipNext),
            RequestCommand::SetShufflingContext(_) => Some(Endpoint::SetShufflingContext),
            RequestCommand::AddToQueue(_) => Some(Endpoint::AddToQueue),
            RequestCommand::SetQueue(_) => Some(Endpoint::SetQueue),
            RequestCommand::SkipPrev(_) => Some(Endpoint::SkipPrev),
            RequestCommand::Resume(_) => Some(Endpoint::Resume),
            RequestCommand::Unknown(_) => None,
        }
    }

    /// The endpoint of a typed command; none for a raw one.
    pub fn endpoint(&self) -> (r: Option<Endpoint>)
        ensures
            r == self.endpoint_spec(),
    {
        match self {
            RequestCommand::Transfer(_) => Some(Endpoint::Transfer),
            RequestCommand::Play(_) => Some(Endpoint::Play),
            RequestCommand::Pause(_) => Some(Endpoint::Pause),
            RequestCommand::SeekTo(_) => Some(Endpoint::SeekTo),
            RequestCommand::SkipNext(_) => Some(Endpoint::SkipNext),
            RequestCommand::SetShufflingContext(_) => Some(Endpoint::SetShufflingContext),
            RequestCommand::AddToQueue(_) => Some(Endpoint::AddToQueue),
            RequestCommand::SetQueue(_) => Some(Endpoint::SetQueue),
            RequestCommand::SkipPrev(_) => Some(Endpoint::SkipPrev),
            RequestCommand::Resume(_) => Some(Endpoint::Resume),
            RequestCommand::Unknown(_) => None,
        }
    }

    /// A readable label: the canonical tag of a typed command; for a raw one
    /// the `endpoint` string it holds, else `???`.
    pub fn label(&self) -> (r: String)
        ensures
            self.endpoint_spec() matches Some(e) ==> r@ == endpoint_name(e),
            self matches RequestCommand::Unknown(v) ==> r@ == unknown_label_of(tag_of(*v)),
    {
        match self.endpoint() {
            Some(e) => e.name(),
            None => match self {
                RequestCommand::Unknown(v) => unknown_label(endpoint_tag(v)),
                _ => String::from_str("???"),
            },
        }
    }
}

} // verus!
