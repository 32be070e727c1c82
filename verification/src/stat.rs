//! The statistics snapshot of the service.

use vstd::prelude::*;
use vstd::string::*;
use crate::envelope::{
    raw_envelope_model, required_payload, ApiError, ApiErrorView, ApiResponse, EnvelopeModel,
};
use crate::json::{
    array_member, get_any, get_array, get_number, get_string, get_u32, get_u64, json_model,
    json_models, member, number_member, string_member, u32_member, u64_member, value_member,
    JsonModel,
};
use crate::text::owned;

verus! {

/// How long the service has been running.
#[derive(Clone, Copy, Debug, PartialEq, Eq, Structural)]
pub struct RunningStat {
    pub hours: u32,
    pub minutes: u32,
    pub seconds: u32,
}

/// Memory in use, by the service and by the whole system.
#[derive(Clone, Copy, Debug, PartialEq, Eq, Structural)]
pub struct MemoryStat {
    pub process: u32,
    pub system: u32,
}

/// The traffic of one messaging platform. `timestamp` is the JSON number that
/// the service sent for the time of the last update, in seconds. A count is
/// read as far as a JSON value holds integers exactly, that is below 2^64.
#[derive(Debug)]
pub struct Platform {
    pub name: String,
    pub count: u128,
    pub timestamp: serde_json::Value,
}

/// A `Platform` as a mathematical value.
pub struct PlatformModel {
    pub name: Seq<char>,
    pub count: u128,
    pub timestamp: JsonModel,
}

impl View for Platform {
    type V = PlatformModel;

    open spec fn view(&self) -> PlatformModel {
        PlatformModel {
            name: self.name@,
            count: self.count,
            timestamp: json_model(self.timestamp),
        }
    }
}

/// A snapshot of the service's statistics. `cpu_percent` is the JSON number
/// that the service sent; `plugins` and `message_time_series` are carried as
/// they came. `message_count` and `start_time` are read as far as a JSON
/// value holds integers exactly, that is below 2^64; a larger one makes the
/// payload a decode failure.
#[derive(Debug)]
pub struct Stat {
    pub platform: Vec<Platform>,
    pub message_count: u128,
    pub platform_count: u32,
    pub plugin_count: u32,
    pub plugins: serde_json::Value,
    pub message_time_series: serde_json::Value,
    pub running: RunningStat,
    pub memory: MemoryStat,
    pub cpu_percent: serde_json::Value,
    pub thread_count: u32,
    pub start_time: u128,
}

/// A `Stat` as a mathematical value.
pub struct StatModel {
    pub platform: Seq<PlatformModel>,
    pub message_count: u128,
    pub platform_count: u32,
    pub plugin_count: u32,
    pub plugins: JsonModel,
    pub message_time_series: JsonModel,
    pub running: RunningStat,
    pub memory: MemoryStat,
    pub cpu_percent: JsonModel,
    pub thread_count: u32,
    pub start_time: u128,
}

/// The models of a list of platforms, in order.
pub open spec fn platform_models(platforms: Seq<Platform>) -> Seq<PlatformModel> {
    Seq::new(platforms.len(), |i: int| platforms[i]@)
}

impl View for Stat {
    type V = StatModel;

    open spec fn view(&self) -> StatModel {
        StatModel {
            platform: platform_models(self.platform@),
            message_count: self.message_count,
            platform_count: self.platform_count,
            plugin_count: self.plugin_count,
            plugins: json_model(self.plugins),
            message_time_series: json_model(self.message_time_series),
            running: self.running,
            memory: self.memory,
            cpu_percent: json_model(self.cpu_percent),
            thread_count: self.thread_count,
            start_time: self.start_time,
        }
    }
}

/// The running time that a JSON value holds: an object with the members
/// `hours`, `minutes` and `seconds`, each an integer of 32 bits.
pub open spec fn running_of(j: JsonModel) -> Option<RunningStat> {
    match (u32_member(j, "hours"@), u32_member(j, "minutes"@), u32_member(j, "seconds"@)) {
        (Some(hours), Some(minutes), Some(seconds)) => Some(
            RunningStat { hours, minutes, seconds },
        ),
        _ => None,
    }
}

/// The memory figures that a JSON value holds: an object with the members
/// `process` and `system`, each an integer of 32 bits.
pub open spec fn memory_of(j: JsonModel) -> Option<MemoryStat> {
    match (u32_member(j, "process"@), u32_member(j, "system"@)) {
        (Some(process), Some(system)) => Some(MemoryStat { process, system }),
        _ => None,
    }
}

/// The platform that a JSON value holds: an object with the text member
/// `name`, the integer member `count` and the number member `timestamp`.
pub open spec fn platform_of(j: JsonModel) -> Option<PlatformModel> {
    match (string_member(j, "name"@), u64_member(j, "count"@), number_member(j, "timestamp"@)) {
        (Some(name), Some(count), Some(timestamp)) => Some(
            PlatformModel { name, count: count as u128, timestamp },
        ),
        _ => None,
    }
}

/// The platforms that a list of JSON values holds, where each holds one.
pub open spec fn platforms_of(items: Seq<JsonModel>) -> Option<Seq<PlatformModel>> {
    if forall|i: int| 0 <= i < items.len() ==> (#[trigger] platform_of(items[i])) is Some {
        Some(Seq::new(items.len(), |i: int| platform_of(items[i])->Some_0))
    } else {
        None
    }
}

/// The member under a key read with a shape of its own.
pub open spec fn shaped_member<T>(
    j: JsonModel,
    key: Seq<char>,
    shape: spec_fn(JsonModel) -> Option<T>,
) -> Option<T> {
    match member(j, key) {
        Some(m) => shape(m),
        None => None,
    }
}

/// The platforms under the member `platform`.
pub open spec fn platform_list_of(j: JsonModel) -> Option<Seq<PlatformModel>> {
    match array_member(j, "platform"@) {
        Some(items) => platforms_of(items),
        None => None,
    }
}

/// The snapshot that a JSON value holds: an object with every member of a
/// snapshot, each of its kind.
pub open spec fn stat_of(j: JsonModel) -> Option<StatModel> {
    if platform_list_of(j) is Some && u64_member(j, "message_count"@) is Some && u32_member(
        j,
        "platform_count"@,
    ) is Some && u32_member(j, "plugin_count"@) is Some && member(j, "plugins"@) is Some && member(
        j,
        "message_time_series"@,
    ) is Some && shaped_member(j, "running"@, |m: JsonModel| running_of(m)) is Some
        && shaped_member(j, "memory"@, |m: JsonModel| memory_of(m)) is Some && number_member(
        j,
        "cpu_percent"@,
    ) is Some && u32_member(j, "thread_count"@) is Some && u64_member(j, "start_time"@) is Some {
        Some(
            StatModel {
                platform: platform_list_of(j)->Some_0,
                message_count: u64_member(j, "message_count"@)->Some_0 as u128,
                platform_count: u32_member(j, "platform_count"@)->Some_0,
                plugin_count: u32_member(j, "plugin_count"@)->Some_0,
                plugins: member(j, "plugins"@)->Some_0,
                message_time_series: member(j, "message_time_series"@)->Some_0,
                running: shaped_member(j, "running"@, |m: JsonModel| running_of(m))->Some_0,
                memory: shaped_member(j, "memory"@, |m: JsonModel| memory_of(m))->Some_0,
                cpu_percent: number_member(j, "cpu_percent"@)->Some_0,
                thread_count: u32_member(j, "thread_count"@)->Some_0,
                start_time: u64_member(j, "start_time"@)->Some_0 as u128,
            },
        )
    } else {
        None
    }
}

impl RunningStat {
    /// Reads a running time.
    pub fn from_json(value: &serde_json::Value) -> (r: Option<RunningStat>)
        ensures
            r == running_of(json_model(*value)),
    {
        let hours = match get_u32(value, "hours") {
            Some(n) => n,
            None => { return None; },
        };
        let minutes = match get_u32(value, "minutes") {
            Some(n) => n,
            None => { return None; },
        };
        let seconds = match get_u32(value, "seconds") {
            Some(n) => n,
            None => { return None; },
        };
        Some(RunningStat { hours, minutes, seconds })
    }
}

impl MemoryStat {
    /// Reads memory figures.
    pub fn from_json(value: &serde_json::Value) -> (r: Option<MemoryStat>)
        ensures
            r == memory_of(json_model(*value)),
    {
        let process = match get_u32(value, "process") {
            Some(n) => n,
            None => { return None; },
        };
        let system = match get_u32(value, "system") {
            Some(n) => n,
            None => { return None; },
        };
        Some(MemoryStat { process, system })
    }
}

impl Platform {
    /// Reads the traffic of one platform.
    pub fn from_json(value: &serde_json::Value) -> (r: Option<Platform>)
        ensures
            match r {
                Some(platform) => platform_of(json_model(*value)) == Some(platform@),
                None => platform_of(json_model(*value)) is None,
            },
    {
        let name = match get_string(value, "name") {
            Some(name) => name,
            None => { return None; },
        };
        let count = match get_u64(value, "count") {
            Some(count) => count,
            None => { return None; },
        };
        let timestamp = match get_number(value, "timestamp") {
            Some(timestamp) => timestamp,
            None => { return None; },
        };
        Some(Platform { name, count: count as u128, timestamp })
    }
}

/// Reads the traffic of every platform of a list.
pub fn platforms_from_json(items: &Vec<serde_json::Value>) -> (r: Option<Vec<Platform>>)
    ensures
        match r {
            Some(platforms) => platforms_of(json_models(items@)) == Some(
                platform_models(platforms@),
            ),
            None => platforms_of(json_models(items@)) is None,
        },
{
    let ghost models = json_models(items@);
    let mut platforms: Vec<Platform> = Vec::new();
    let mut i: usize = 0;
    while i < items.len()
        invariant
            i <= items.len(),
            models == json_models(items@),
            platforms@.len() == i,
            forall|k: int|
                0 <= k < i ==> platform_of(models[k]) == Some(#[trigger] platforms@[k]@),
        decreases items.len() - i,
    {
        match Platform::from_json(&items[i]) {
            Some(platform) => {
                platforms.push(platform);
            },
            None => {
                assert(platform_of(models[i as int]) is None);
                return None;
            },
        }
        i = i + 1;
    }
    proof {
        assert forall|k: int| 0 <= k < models.len() implies (#[trigger] platform_of(
            models[k],
        )) is Some by {
            assert(platform_of(models[k]) == Some(platforms@[k]@));
        }
        assert(platform_models(platforms@) =~= Seq::new(
            models.len(),
            |k: int| platform_of(models[k])->Some_0,
        ));
    }
    Some(platforms)
}

impl Stat {
    /// Reads a snapshot.
    pub fn from_json(value: &serde_json::Value) -> (r: Option<Stat>)
        ensures
            match r {
                Some(stat) => stat_of(json_model(*value)) == Some(stat@),
                None => stat_of(json_model(*value)) is None,
            },
    {
        let platform = match get_array(value, "platform") {
            Some(items) => match platforms_from_json(items) {
                Some(platform) => platform,
                None => { return None; },
            },
            None => { return None; },
        };
        let message_count = match get_u64(value, "message_count") {
            Some(n) => n,
            None => { return None; },
        };
        let platform_count = match get_u32(value, "platform_count") {
            Some(n) => n,
            None => { return None; },
        };
        let plugin_count = match get_u32(value, "plugin_count") {
            Some(n) => n,
            None => { return None; },
        };
        let plugins = match get_any(value, "plugins") {
            Some(m) => m,
            None => { return None; },
        };
        let message_time_series = match get_any(value, "message_time_series") {
            Some(m) => m,
            None => { return None; },
        };
        let running = match value_member(value, "running") {
            Some(m) => match RunningStat::from_json(m) {
                Some(running) => running,
                None => { return None; },
            },
            None => { return None; },
        };
        let memory = match value_member(value, "memory") {
            Some(m) => match MemoryStat::from_json(m) {
                Some(memory) => memory,
                None => { return None; },
            },
            None => { return None; },
        };
        let cpu_percent = match get_number(value, "cpu_percent") {
            Some(m) => m,
            None => { return None; },
        };
        let thread_count = match get_u32(value, "thread_count") {
            Some(n) => n,
            None => { return None; },
        };
        let start_time = match get_u64(value, "start_time") {
            Some(n) => n,
            None => { return None; },
        };
        Some(
            Stat {
                platform,
                message_count: message_count as u128,
                platform_count,
                plugin_count,
                plugins,
                message_time_series,
                running,
                memory,
                cpu_percent,
                thread_count,
                start_time: start_time as u128,
            },
        )
    }
}

/// The model of the outcome of fetching the statistics.
pub open spec fn stat_outcome_model(outcome: Result<Stat, ApiError>) -> Result<
    StatModel,
    ApiErrorView,
> {
    match outcome {
        Ok(stat) => Ok(stat@),
        Err(error) => Err(error@),
    }
}

/// The diagnostic for a payload that is no statistics snapshot.
pub open spec fn no_stat_text() -> Seq<char> {
    "the payload is no statistics snapshot"@
}

/// What fetching the statistics yields for a decoded envelope.
pub open spec fn stat_result(envelope: EnvelopeModel) -> Result<StatModel, ApiErrorView> {
    required_payload(envelope, |j: JsonModel| stat_of(j), no_stat_text())
}

/// What fetching the statistics yields for a decoded envelope.
pub fn stat_from_response(response: ApiResponse<serde_json::Value>) -> (r: Result<Stat, ApiError>)
    ensures
        stat_outcome_model(r) == stat_result(raw_envelope_model(response)),
{
    match &response.data {
        Some(payload) => match Stat::from_json(payload) {
            None => Err(ApiError::Decode(owned("the payload is no statistics snapshot"))),
            Some(stat) => if response.is_ok() {
                Ok(stat)
            } else {
                Err(ApiError::Api(response.message))
            },
        },
        None => if response.is_ok() {
            Err(ApiError::MissingData)
        } else {
            Err(ApiError::Api(response.message))
        },
    }
}

} // verus!
