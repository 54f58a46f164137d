//! What the service answers, and how the answers are read out of their
//! JSON documents. Every operation wraps its result in its own way; the
//! readers here unwrap them into one model.

pub mod values;

use vstd::prelude::*;
use crate::json::{parse_text, parsed_json, JsonValue};
use crate::responses::values::{
    correctable_of, models_of, required_correctable, CorrectableModel, CorrectableString,
    ScrobbleList,
};

verus! {

/// The session that an authentication yields.
#[derive(Clone, Debug, PartialEq, Eq)]
pub struct SessionResponse {
    pub key: String,
    pub subscriber: i64,
    pub name: String,
}

/// A session as the contracts see it.
pub struct SessionModel {
    pub key: Seq<char>,
    pub subscriber: int,
    pub name: Seq<char>,
}

impl View for SessionResponse {
    type V = SessionModel;

    open spec fn view(&self) -> SessionModel {
        SessionModel { key: self.key@, subscriber: self.subscriber as int, name: self.name@ }
    }
}

/// The service's echo of a now-playing update.
#[derive(Debug, PartialEq, Eq)]
pub struct NowPlayingResponse {
    pub artist: CorrectableString,
    pub album: CorrectableString,
    pub album_artist: CorrectableString,
    pub track: CorrectableString,
}

/// A now-playing echo as the contracts see it.
pub struct NowPlayingModel {
    pub artist: CorrectableModel,
    pub album: CorrectableModel,
    pub album_artist: CorrectableModel,
    pub track: CorrectableModel,
}

impl View for NowPlayingResponse {
    type V = NowPlayingModel;

    open spec fn view(&self) -> NowPlayingModel {
        NowPlayingModel {
            artist: self.artist@,
            album: self.album@,
            album_artist: self.album_artist@,
            track: self.track@,
        }
    }
}

/// The result of one scrobble.
#[derive(Debug, PartialEq, Eq)]
pub struct ScrobbleResponse {
    pub artist: CorrectableString,
    pub album: CorrectableString,
    pub album_artist: CorrectableString,
    pub track: CorrectableString,
    pub timestamp: String,
}

/// The result of one scrobble as the contracts see it.
pub struct ScrobbleModel {
    pub artist: CorrectableModel,
    pub album: CorrectableModel,
    pub album_artist: CorrectableModel,
    pub track: CorrectableModel,
    pub timestamp: Seq<char>,
}

impl View for ScrobbleResponse {
    type V = ScrobbleModel;

    open spec fn view(&self) -> ScrobbleModel {
        ScrobbleModel {
            artist: self.artist@,
            album: self.album@,
            album_artist: self.album_artist@,
            track: self.track@,
            timestamp: self.timestamp@,
        }
    }
}

/// The result of a batch of scrobbles: one result for each, in order, and
/// how many the service accepted and ignored.
#[derive(Debug, PartialEq, Eq)]
pub struct BatchScrobbleResponse {
    pub scrobbles: ScrobbleList,
    pub accepted: u64,
    pub ignored: u64,
}

/// The result of a batch as the contracts see it.
pub struct BatchModel {
    pub scrobbles: Seq<ScrobbleModel>,
    pub accepted: int,
    pub ignored: int,
}

impl View for BatchScrobbleResponse {
    type V = BatchModel;

    open spec fn view(&self) -> BatchModel {
        BatchModel {
            scrobbles: self.scrobbles@,
            accepted: self.accepted as int,
            ignored: self.ignored as int,
        }
    }
}

/// The session in the answer to an authentication: the object under
/// `session`, with the texts `key` and `name` and the integer `subscriber`.
pub open spec fn session_of(doc: JsonValue) -> Option<SessionModel> {
    match doc.member("session"@) {
        Some(session) => {
            let key = session.member("key"@);
            let name = session.member("name"@);
            let subscriber = session.member("subscriber"@);
            if key is Some && key->0.text() is Some && name is Some && name->0.text() is Some
                && subscriber is Some && subscriber->0.integer() is Some {
                Some(
                    SessionModel {
                        key: key->0.text()->0,
                        subscriber: subscriber->0.integer()->0,
                        name: name->0.text()->0,
                    },
                )
            } else {
                None
            }
        },
        None => None,
    }
}

/// The echo in the answer to a now-playing update: the object under
/// `nowplaying`. Artist and track have to be there; album and album artist
/// may be missing.
pub open spec fn now_playing_of(doc: JsonValue) -> Option<NowPlayingModel> {
    match doc.member("nowplaying"@) {
        Some(echo) => {
            let artist = required_correctable(echo, "artist"@);
            let album = correctable_of(echo.member("album"@));
            let album_artist = correctable_of(echo.member("albumArtist"@));
            let track = required_correctable(echo, "track"@);
            if echo is Object && artist is Some && album is Some && album_artist is Some
                && track is Some {
                Some(
                    NowPlayingModel {
                        artist: artist->0,
                        album: album->0,
                        album_artist: album_artist->0,
                        track: track->0,
                    },
                )
            } else {
                None
            }
        },
        None => None,
    }
}

/// The result that one object under `scrobble` stands for. Artist, track
/// and the text `timestamp` have to be there; album and album artist may be
/// missing.
pub open spec fn scrobble_of(item: JsonValue) -> Option<ScrobbleModel> {
    let artist = required_correctable(item, "artist"@);
    let album = correctable_of(item.member("album"@));
    let album_artist = correctable_of(item.member("albumArtist"@));
    let track = required_correctable(item, "track"@);
    let timestamp = item.member("timestamp"@);
    if item is Object && artist is Some && album is Some && album_artist is Some && track is Some
        && timestamp is Some && timestamp->0.text() is Some {
        Some(
            ScrobbleModel {
                artist: artist->0,
                album: album->0,
                album_artist: album_artist->0,
                track: track->0,
                timestamp: timestamp->0.text()->0,
            },
        )
    } else {
        None
    }
}

/// The results that a list of objects stands for, if every one of them
/// stands for a result.
pub open spec fn scrobbles_of(items: Seq<JsonValue>) -> Option<Seq<ScrobbleModel>> {
    if forall|i: int| 0 <= i < items.len() ==> (#[trigger] scrobble_of(items[i])) is Some {
        Some(Seq::new(items.len(), |i: int| scrobble_of(items[i])->0))
    } else {
        None
    }
}

/// The results under `scrobbles.scrobble`, whichever shape the service
/// chose: one object stands for one result, a list for one result each.
pub open spec fn scrobble_results_of(doc: JsonValue) -> Option<Seq<ScrobbleModel>> {
    match doc.member("scrobbles"@) {
        Some(wrapper) => match wrapper.member("scrobble"@) {
            Some(JsonValue::List(items)) => scrobbles_of(items@),
            Some(item) => if item is Object {
                scrobbles_of(seq![item])
            } else {
                None
            },
            None => None,
        },
        None => None,
    }
}

/// The result in the answer to a single scrobble: the one result under
/// `scrobbles.scrobble`.
pub open spec fn single_scrobble_of(doc: JsonValue) -> Option<ScrobbleModel> {
    match scrobble_results_of(doc) {
        Some(results) => if results.len() == 1 {
            Some(results[0])
        } else {
            None
        },
        None => None,
    }
}

/// A count under `@attr`: an integer that is not negative.
pub open spec fn count_of(field: Option<JsonValue>) -> Option<int> {
    match field {
        Some(value) => match value.integer() {
            Some(number) => if number >= 0 {
                Some(number)
            } else {
                None
            },
            None => None,
        },
        None => None,
    }
}

/// The result in the answer to a batch of scrobbles: the results under
/// `scrobbles.scrobble`, and the counts `accepted` and `ignored` under
/// `scrobbles.@attr`.
pub open spec fn batch_of(doc: JsonValue) -> Option<BatchModel> {
    match (scrobble_results_of(doc), doc.member("scrobbles"@)) {
        (Some(results), Some(wrapper)) => match wrapper.member("@attr"@) {
            Some(counts) => {
                let accepted = count_of(counts.member("accepted"@));
                let ignored = count_of(counts.member("ignored"@));
                if accepted is Some && ignored is Some {
                    Some(
                        BatchModel {
                            scrobbles: results,
                            accepted: accepted->0,
                            ignored: ignored->0,
                        },
                    )
                } else {
                    None
                }
            },
            None => None,
        },
        _ => None,
    }
}

impl SessionResponse {
    /// Reads the session out of the answer to an authentication.
    pub fn decode(doc: &JsonValue) -> (decoded: Option<SessionResponse>)
        ensures
            match decoded {
                Some(session) => session_of(*doc) == Some(session@),
                None => session_of(*doc) is None,
            },
    {
        let session = match doc.get("session") {
            Some(session) => session,
            None => { return None; },
        };
        let key = match session.get("key") {
            Some(key) => key.as_text(),
            None => None,
        };
        let name = match session.get("name") {
            Some(name) => name.as_text(),
            None => None,
        };
        let subscriber = match session.get("subscriber") {
            Some(subscriber) => subscriber.as_integer(),
            None => None,
        };
        match (key, name, subscriber) {
            (Some(key), Some(name), Some(subscriber)) => Some(
                SessionResponse { key: key.clone(), subscriber, name: name.clone() },
            ),
            _ => None,
        }
    }

    /// Reads the session out of the body of an answer.
    pub fn from_json(body: &str) -> (decoded: Option<SessionResponse>)
        ensures
            match decoded {
                Some(session) => parsed_json(body@) is Some && session_of(parsed_json(body@)->0)
                    == Some(session@),
                None => parsed_json(body@) is None || session_of(parsed_json(body@)->0) is None,
            },
    {
        match parse_text(body) {
            Some(doc) => SessionResponse::decode(&doc),
            None => None,
        }
    }
}

impl NowPlayingResponse {
    /// Reads the echo out of the answer to a now-playing update.
    pub fn decode(doc: &JsonValue) -> (decoded: Option<NowPlayingResponse>)
        ensures
            match decoded {
                Some(echo) => now_playing_of(*doc) == Some(echo@),
                None => now_playing_of(*doc) is None,
            },
    {
        let echo = match doc.get("nowplaying") {
            Some(echo) => echo,
            None => { return None; },
        };
        match echo {
            JsonValue::Object(_) => {},
            _ => { return None; },
        }
        let artist = CorrectableString::decode_required(echo, "artist");
        let album = CorrectableString::decode(echo.get("album"));
        let album_artist = CorrectableString::decode(echo.get("albumArtist"));
        let track = CorrectableString::decode_required(echo, "track");
        match (artist, album, album_artist, track) {
            (Some(artist), Some(album), Some(album_artist), Some(track)) => Some(
                NowPlayingResponse { artist, album, album_artist, track },
            ),
            _ => None,
        }
    }

    /// Reads the echo out of the body of an answer.
    pub fn from_json(body: &str) -> (decoded: Option<NowPlayingResponse>)
        ensures
            match decoded {
                Some(echo) => parsed_json(body@) is Some && now_playing_of(parsed_json(body@)->0)
                    == Some(echo@),
                None => parsed_json(body@) is None || now_playing_of(parsed_json(body@)->0)
                    is None,
            },
    {
        match parse_text(body) {
            Some(doc) => NowPlayingResponse::decode(&doc),
            None => None,
        }
    }
}

/// Reads the result that one object under `scrobble` stands for.
pub fn decode_scrobble(item: &JsonValue) -> (decoded: Option<ScrobbleResponse>)
    ensures
        match decoded {
            Some(result) => scrobble_of(*item) == Some(result@),
            None => scrobble_of(*item) is None,
        },
{
    match item {
        JsonValue::Object(_) => {},
        _ => { return None; },
    }
    let artist = CorrectableString::decode_required(item, "artist");
    let album = CorrectableString::decode(item.get("album"));
    let album_artist = CorrectableString::decode(item.get("albumArtist"));
    let track = CorrectableString::decode_required(item, "track");
    let timestamp = match item.get("timestamp") {
        Some(timestamp) => timestamp.as_text(),
        None => None,
    };
    match (artist, album, album_artist, track, timestamp) {
        (Some(artist), Some(album), Some(album_artist), Some(track), Some(timestamp)) => Some(
            ScrobbleResponse { artist, album, album_artist, track, timestamp: timestamp.clone() },
        ),
        _ => None,
    }
}

/// Reads the results that a list of objects stands for.
pub fn decode_scrobbles(items: &Vec<JsonValue>) -> (decoded: Option<Vec<ScrobbleResponse>>)
    ensures
        match decoded {
            Some(results) => scrobbles_of(items@) == Some(models_of(results@)),
            None => scrobbles_of(items@) is None,
        },
{
    let mut results: Vec<ScrobbleResponse> = Vec::new();
    let mut i: usize = 0;
    while i < items.len()
        invariant
            i <= items@.len(),
            results@.len() == i,
            forall|j: int| 0 <= j < i ==> scrobble_of(items@[j]) == Some((#[trigger] results@[j])@),
        decreases items@.len() - i,
    {
        match decode_scrobble(&items[i]) {
            Some(result) => {
                results.push(result);
            },
            None => {
                return None;
            },
        }
        i += 1;
    }
    proof {
        assert forall|j: int| 0 <= j < items@.len() implies (#[trigger] scrobble_of(
            items@[j],
        )) is Some by {
            assert(scrobble_of(items@[j]) == Some(results@[j]@));
        }
        assert(Seq::new(items@.len(), |j: int| scrobble_of(items@[j])->0) =~= models_of(
            results@,
        )) by {
            assert forall|j: int| 0 <= j < items@.len() implies scrobble_of(items@[j])->0
                == models_of(results@)[j] by {
                assert(scrobble_of(items@[j]) == Some(results@[j]@));
            }
        }
    }
    Some(results)
}

/// Reads the results under `scrobbles.scrobble`, one object or a list.
pub fn decode_scrobble_results(doc: &JsonValue) -> (decoded: Option<Vec<ScrobbleResponse>>)
    ensures
        match decoded {
            Some(results) => scrobble_results_of(*doc) == Some(models_of(results@)),
            None => scrobble_results_of(*doc) is None,
        },
{
    let wrapper = match doc.get("scrobbles") {
        Some(wrapper) => wrapper,
        None => { return None; },
    };
    match wrapper.get("scrobble") {
        Some(JsonValue::List(items)) => decode_scrobbles(items),
        Some(item) => match item {
            JsonValue::Object(_) => match decode_scrobble(item) {
                Some(result) => {
                    let mut results: Vec<ScrobbleResponse> = Vec::new();
                    results.push(result);
                    proof {
                        let one = seq![*item];
                        assert(scrobble_of(one[0]) is Some);
                        assert(Seq::new(one.len(), |j: int| scrobble_of(one[j])->0) =~= models_of(
                            results@,
                        ));
                    }
                    Some(results)
                },
                None => {
                    proof {
                        let one = seq![*item];
                        assert(scrobble_of(one[0]) is None);
                    }
                    None
                },
            },
            _ => None,
        },
        None => None,
    }
}

impl ScrobbleResponse {
    /// Reads the result out of the answer to a single scrobble.
    pub fn decode(doc: &JsonValue) -> (decoded: Option<ScrobbleResponse>)
        ensures
            match decoded {
                Some(result) => single_scrobble_of(*doc) == Some(result@),
                None => single_scrobble_of(*doc) is None,
            },
    {
        match decode_scrobble_results(doc) {
            Some(results) => {
                let mut results = results;
                if results.len() == 1 {
                    results.pop()
                } else {
                    None
                }
            },
            None => None,
        }
    }

    /// Reads the result out of the body of an answer.
    pub fn from_json(body: &str) -> (decoded: Option<ScrobbleResponse>)
        ensures
            match decoded {
                Some(result) => parsed_json(body@) is Some && single_scrobble_of(
                    parsed_json(body@)->0,
                ) == Some(result@),
                None => parsed_json(body@) is None || single_scrobble_of(parsed_json(body@)->0)
                    is None,
            },
    {
        match parse_text(body) {
            Some(doc) => ScrobbleResponse::decode(&doc),
            None => None,
        }
    }
}

/// Reads a count.
fn decode_count(field: Option<&JsonValue>) -> (count: Option<u64>)
    ensures
        match count {
            Some(count) => count_of(crate::json::deref_field(field)) == Some(count as int),
            None => count_of(crate::json::deref_field(field)) is None,
        },
{
    match field {
        Some(value) => match value.as_integer() {
            Some(number) => if number >= 0 {
                Some(number as u64)
            } else {
                None
            },
            None => None,
        },
        None => None,
    }
}

impl BatchScrobbleResponse {
    /// Reads the result out of the answer to a batch of scrobbles.
    pub fn decode(doc: &JsonValue) -> (decoded: Option<BatchScrobbleResponse>)
        ensures
            match decoded {
                Some(batch) => batch_of(*doc) == Some(batch@),
                None => batch_of(*doc) is None,
            },
    {
        let results = match decode_scrobble_results(doc) {
            Some(results) => results,
            None => { return None; },
        };
        let wrapper = match doc.get("scrobbles") {
            Some(wrapper) => wrapper,
            None => { return None; },
        };
        let counts = match wrapper.get("@attr") {
            Some(counts) => counts,
            None => { return None; },
        };
        let accepted = decode_count(counts.get("accepted"));
        let ignored = decode_count(counts.get("ignored"));
        match (accepted, ignored) {
            (Some(accepted), Some(ignored)) => Some(
                BatchScrobbleResponse {
                    scrobbles: ScrobbleList::from_vec(results),
                    accepted,
                    ignored,
                },
            ),
            _ => None,
        }
    }

    /// Reads the result out of the body of an answer.
    pub fn from_json(body: &str) -> (decoded: Option<BatchScrobbleResponse>)
        ensures
            match decoded {
                Some(batch) => parsed_json(body@) is Some && batch_of(parsed_json(body@)->0)
                    == Some(batch@),
                None => parsed_json(body@) is None || batch_of(parsed_json(body@)->0) is None,
            },
    {
        match parse_text(body) {
            Some(doc) => BatchScrobbleResponse::decode(&doc),
            None => None,
        }
    }
}

} // verus!
