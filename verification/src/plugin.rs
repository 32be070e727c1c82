//! Plugins as the service lists them.

use vstd::prelude::*;
use vstd::string::*;
use crate::envelope::{is_ok_status, ApiError, ApiErrorView, ApiResponse, EnvelopeModel};
use crate::json::{
    bool_member, get_bool, get_string, json_model, json_models, string_member, value_as_array,
    value_null, JsonModel,
};
use crate::text::owned;

verus! {

/// A plugin of the service. The service's list gives `name`, `version` and
/// `activated`; the other fields are kept at their empty values.
#[derive(Debug)]
pub struct Plugin {
    pub name: String,
    pub repo: String,
    pub author: String,
    pub desc: String,
    pub version: String,
    pub reserved: bool,
    pub activated: bool,
    pub online_version: String,
    pub handlers: serde_json::Value,
}

/// A `Plugin` as a mathematical value.
pub struct PluginModel {
    pub name: Seq<char>,
    pub repo: Seq<char>,
    pub author: Seq<char>,
    pub desc: Seq<char>,
    pub version: Seq<char>,
    pub reserved: bool,
    pub activated: bool,
    pub online_version: Seq<char>,
    pub handlers: JsonModel,
}

impl View for Plugin {
    type V = PluginModel;

    open spec fn view(&self) -> PluginModel {
        PluginModel {
            name: self.name@,
            repo: self.repo@,
            author: self.author@,
            desc: self.desc@,
            version: self.version@,
            reserved: self.reserved,
            activated: self.activated,
            online_version: self.online_version@,
            handlers: json_model(self.handlers),
        }
    }
}

/// The plugin with the given listed fields and nothing else.
pub open spec fn listed_plugin(name: Seq<char>, version: Seq<char>, activated: bool) -> PluginModel {
    PluginModel {
        name,
        repo: Seq::empty(),
        author: Seq::empty(),
        desc: Seq::empty(),
        version,
        reserved: false,
        activated,
        online_version: Seq::empty(),
        handlers: JsonModel::Null,
    }
}

/// The plugin that a JSON value describes: an object with the text members
/// `name` and `version` and the boolean member `activated`.
pub open spec fn plugin_of(j: JsonModel) -> Option<PluginModel> {
    match (string_member(j, "name"@), string_member(j, "version"@), bool_member(j, "activated"@)) {
        (Some(name), Some(version), Some(activated)) => Some(
            listed_plugin(name, version, activated),
        ),
        _ => None,
    }
}

/// The plugins that a JSON value lists: an array of plugin descriptions.
pub open spec fn plugins_of(j: JsonModel) -> Option<Seq<PluginModel>> {
    match j {
        JsonModel::Array(items) => if forall|i: int|
            0 <= i < items.len() ==> (#[trigger] plugin_of(items[i])) is Some {
            Some(Seq::new(items.len(), |i: int| plugin_of(items[i])->Some_0))
        } else {
            None
        },
        _ => None,
    }
}

/// The models of a list of plugins, in order.
pub open spec fn plugin_models(plugins: Seq<Plugin>) -> Seq<PluginModel> {
    Seq::new(plugins.len(), |i: int| plugins[i]@)
}

/// The model of the outcome of an operation that yields plugins.
pub open spec fn plugins_outcome_model(outcome: Result<Vec<Plugin>, ApiError>) -> Result<
    Seq<PluginModel>,
    ApiErrorView,
> {
    match outcome {
        Ok(plugins) => Ok(plugin_models(plugins@)),
        Err(error) => Err(error@),
    }
}

/// The diagnostic for a payload that is no list of plugins.
pub open spec fn no_plugin_list_text() -> Seq<char> {
    "the payload is no list of plugins"@
}

/// What listing the plugins yields for a decoded envelope. A payload of the
/// wrong shape is a decode failure even where the service reported a
/// failure of its own; an absent payload is an empty list.
pub open spec fn plugins_result(envelope: EnvelopeModel) -> Result<Seq<PluginModel>, ApiErrorView> {
    let listed = match envelope.data {
        Some(payload) => plugins_of(payload),
        None => Some(Seq::empty()),
    };
    match listed {
        None => Err(ApiErrorView::Decode(no_plugin_list_text())),
        Some(plugins) => if is_ok_status(envelope.status) {
            Ok(plugins)
        } else {
            Err(ApiErrorView::Api(envelope.message))
        },
    }
}

impl Plugin {
    /// Reads one plugin description.
    pub fn from_json(value: &serde_json::Value) -> (r: Option<Plugin>)
        ensures
            match r {
                Some(plugin) => plugin_of(json_model(*value)) == Some(plugin@),
                None => plugin_of(json_model(*value)) is None,
            },
    {
        let name = match get_string(value, "name") {
            Some(name) => name,
            None => { return None; },
        };
        let version = match get_string(value, "version") {
            Some(version) => version,
            None => { return None; },
        };
        let activated = match get_bool(value, "activated") {
            Some(activated) => activated,
            None => { return None; },
        };
        Some(
            Plugin {
                name,
                repo: String::new(),
                author: String::new(),
                desc: String::new(),
                version,
                reserved: false,
                activated,
                online_version: String::new(),
                handlers: value_null(),
            },
        )
    }
}

/// Reads a list of plugin descriptions.
pub fn plugins_from_json(value: &serde_json::Value) -> (r: Option<Vec<Plugin>>)
    ensures
        match r {
            Some(plugins) => plugins_of(json_model(*value)) == Some(plugin_models(plugins@)),
            None => plugins_of(json_model(*value)) is None,
        },
{
    let items = match value_as_array(value) {
        Some(items) => items,
        None => { return None; },
    };
    let ghost models = json_models(items@);
    let mut plugins: Vec<Plugin> = Vec::new();
    let mut i: usize = 0;
    while i < items.len()
        invariant
            i <= items.len(),
            models == json_models(items@),
            json_model(*value) == JsonModel::Array(models),
            plugins@.len() == i,
            forall|k: int| 0 <= k < i ==> plugin_of(models[k]) == Some(#[trigger] plugins@[k]@),
        decreases items.len() - i,
    {
        match Plugin::from_json(&items[i]) {
            Some(plugin) => {
                plugins.push(plugin);
            },
            None => {
                assert(plugin_of(models[i as int]) is None);
                return None;
            },
        }
        i = i + 1;
    }
    proof {
        assert forall|k: int| 0 <= k < models.len() implies (#[trigger] plugin_of(
            models[k],
        )) is Some by {
            assert(plugin_of(models[k]) == Some(plugins@[k]@));
        }
        assert(plugin_models(plugins@) =~= Seq::new(
            models.len(),
            |k: int| plugin_of(models[k])->Some_0,
        ));
    }
    Some(plugins)
}

/// What listing the plugins yields for a decoded envelope.
pub fn plugins_from_response(response: ApiResponse<serde_json::Value>) -> (r: Result<
    Vec<Plugin>,
    ApiError,
>)
    ensures
        plugins_outcome_model(r) == plugins_result(crate::envelope::raw_envelope_model(response)),
{
    let listed = match &response.data {
        Some(payload) => plugins_from_json(payload),
        None => {
            let empty: Vec<Plugin> = Vec::new();
            assert(plugin_models(empty@) =~= Seq::empty());
            Some(empty)
        },
    };
    match listed {
        None => Err(ApiError::Decode(owned("the payload is no list of plugins"))),
        Some(plugins) => if response.is_ok() {
            Ok(plugins)
        } else {
            Err(ApiError::Api(response.message))
        },
    }
}

} // verus!
