//! A whole configuration: the bootstrap's settings and the renderer's options,
//! read from one payload and written back to it.

use crate::fields::{names_mismatch, ConfigError, ConfigErrorView, Expected};
use crate::options::{
    lemma_redoc_options_mismatch, lemma_redoc_options_reads_iff_well_typed,
    lemma_redoc_try_it_out_options_reads_iff_well_typed, redoc_options_well_typed,
    redoc_try_it_out_options_well_typed, lemma_redoc_options_own_keys,
    dependencies_versions_from, lemma_redoc_options_empty, lemma_redoc_try_it_out_options_empty,
    lemma_redoc_options_round_trip, lemma_redoc_try_it_out_options_mismatch,
    lemma_redoc_try_it_out_options_own_keys,
    lemma_redoc_try_it_out_options_round_trip, redoc_options_from, redoc_options_keys,
    redoc_options_values, redoc_options_wire, redoc_try_it_out_options_from,
    redoc_try_it_out_options_keys, redoc_try_it_out_options_values,
    redoc_try_it_out_options_wire, RedocOptions, RedocOptionsView, RedocTryItOutOptions,
    RedocTryItOutOptionsView,
};
use crate::value::{
    distinct_keys, entries_view, lemma_lookup_append, lemma_lookup_fields_wire_absent,
    lemma_object_view, lookup, object_value, value_at, Entries, Json, Value,
};
use vstd::prelude::*;

verus! {

/// Everything one initialisation call is configured with. Both parts are read
/// from the same payload: each takes the keys it knows and ignores the rest.
#[derive(Debug, Clone, PartialEq)]
pub struct Configuration {
    pub bootstrap: RedocTryItOutOptions,
    pub renderer: RedocOptions,
}

pub struct ConfigurationView {
    pub bootstrap: RedocTryItOutOptionsView,
    pub renderer: RedocOptionsView,
}

impl View for Configuration {
    type V = ConfigurationView;

    open spec fn view(&self) -> ConfigurationView {
        ConfigurationView { bootstrap: self.bootstrap@, renderer: self.renderer@ }
    }
}

/// The error for a payload that is not an object.
pub open spec fn not_an_object() -> ConfigErrorView {
    ConfigErrorView { path: Seq::empty(), expected: Expected::Object }
}

/// The configuration a payload denotes, or the first field of the wrong kind:
/// the bootstrap's settings are read first, then the renderer's options.
pub open spec fn configuration_from(payload: Json) -> Result<ConfigurationView, ConfigErrorView> {
    match payload {
        Json::Object(e) => match redoc_try_it_out_options_from(e) {
            Err(err) => Err(err),
            Ok(bootstrap) => match redoc_options_from(e) {
                Err(err) => Err(err),
                Ok(renderer) => Ok(ConfigurationView { bootstrap, renderer }),
            },
        },
        _ => Err(not_an_object()),
    }
}

/// The payload a configuration is written as: the bootstrap's settings, then
/// the renderer's set options.
pub open spec fn configuration_wire(c: ConfigurationView) -> Json {
    Json::Object(redoc_try_it_out_options_wire(c.bootstrap) + redoc_options_wire(c.renderer))
}

/// The keys of the two parts.
pub open spec fn top_level_keys() -> Seq<Seq<char>> {
    redoc_try_it_out_options_keys() + redoc_options_keys()
}

pub proof fn lemma_top_level_keys()
    ensures
        distinct_keys(top_level_keys()),
{
    reveal_strlit("redocVersion");
    reveal_strlit("tryItOutEnabled");
    reveal_strlit("tryItBoxContainerId");
    reveal_strlit("containerId");
    reveal_strlit("operationBoxSelector");
    reveal_strlit("selectedOperationClass");
    reveal_strlit("dependenciesVersions");
    reveal_strlit("authBtn");
    reveal_strlit("tryBtn");
    reveal_strlit("disableSearch");
    reveal_strlit("expandDefaultServerVariables");
    reveal_strlit("expandResponses");
    reveal_strlit("generatedPayloadSamplesMaxDepth");
    reveal_strlit("maxDisplayedEnumValues");
    reveal_strlit("hideDownloadButton");
    reveal_strlit("hideHostname");
    reveal_strlit("hideLoading");
    reveal_strlit("hideSchemaPattern");
    reveal_strlit("hideSingleRequestSampleTab");
    reveal_strlit("expandSingleSchemaField");
    reveal_strlit("jsonSampleExpandLevel");
    reveal_strlit("hideSchemaTitles");
    reveal_strlit("simpleOneOfTypeLabel");
    reveal_strlit("lazyRendering");
    reveal_strlit("menuToggle");
    reveal_strlit("nativeScrollbars");
    reveal_strlit("noAutoAuth");
    reveal_strlit("onlyRequiredInSamples");
    reveal_strlit("pathInMiddlePanel");
    reveal_strlit("requiredPropsFirst");
    reveal_strlit("scrollYOffset");
    reveal_strlit("selector");
    reveal_strlit("showExtensions");
    reveal_strlit("sortPropsAlphabetically");
    reveal_strlit("payloadSampleIdx");
    reveal_strlit("theme");
    reveal_strlit("untrustedSpec");
    assert("redocVersion"@.len() == 12);
    assert("tryItOutEnabled"@.len() == 15);
    assert("tryItBoxContainerId"@.len() == 19);
    assert("containerId"@.len() == 11);
    assert("operationBoxSelector"@.len() == 20);
    assert("selectedOperationClass"@.len() == 22);
    assert("dependenciesVersions"@.len() == 20);
    assert("authBtn"@.len() == 7);
    assert("tryBtn"@.len() == 6);
    assert("disableSearch"@.len() == 13);
    assert("expandDefaultServerVariables"@.len() == 28);
    assert("expandResponses"@.len() == 15);
    assert("generatedPayloadSamplesMaxDepth"@.len() == 31);
    assert("maxDisplayedEnumValues"@.len() == 22);
    assert("hideDownloadButton"@.len() == 18);
    assert("hideHostname"@.len() == 12);
    assert("hideLoading"@.len() == 11);
    assert("hideSchemaPattern"@.len() == 17);
    assert("hideSingleRequestSampleTab"@.len() == 26);
    assert("expandSingleSchemaField"@.len() == 23);
    assert("jsonSampleExpandLevel"@.len() == 21);
    assert("hideSchemaTitles"@.len() == 16);
    assert("simpleOneOfTypeLabel"@.len() == 20);
    assert("lazyRendering"@.len() == 13);
    assert("menuToggle"@.len() == 10);
    assert("nativeScrollbars"@.len() == 16);
    assert("noAutoAuth"@.len() == 10);
    assert("onlyRequiredInSamples"@.len() == 21);
    assert("pathInMiddlePanel"@.len() == 17);
    assert("requiredPropsFirst"@.len() == 18);
    assert("scrollYOffset"@.len() == 13);
    assert("selector"@.len() == 8);
    assert("showExtensions"@.len() == 14);
    assert("sortPropsAlphabetically"@.len() == 23);
    assert("payloadSampleIdx"@.len() == 16);
    assert("theme"@.len() == 5);
    assert("untrustedSpec"@.len() == 13);
    assert("redocVersion"@[0] != "hideHostname"@[0]);
    assert("tryItOutEnabled"@[0] != "expandResponses"@[0]);
    assert("containerId"@[0] != "hideLoading"@[0]);
    assert("operationBoxSelector"@[0] != "dependenciesVersions"@[0]);
    assert("operationBoxSelector"@[0] != "simpleOneOfTypeLabel"@[0]);
    assert("selectedOperationClass"@[0] != "maxDisplayedEnumValues"@[0]);
    assert("dependenciesVersions"@[0] != "simpleOneOfTypeLabel"@[0]);
    assert("disableSearch"@[0] != "lazyRendering"@[0]);
    assert("disableSearch"@[0] != "scrollYOffset"@[0]);
    assert("disableSearch"@[0] != "untrustedSpec"@[0]);
    assert("hideDownloadButton"@[0] != "requiredPropsFirst"@[0]);
    assert("hideSchemaPattern"@[0] != "pathInMiddlePanel"@[0]);
    assert("expandSingleSchemaField"@[0] != "sortPropsAlphabetically"@[0]);
    assert("jsonSampleExpandLevel"@[0] != "onlyRequiredInSamples"@[0]);
    assert("hideSchemaTitles"@[0] != "nativeScrollbars"@[0]);
    assert("hideSchemaTitles"@[0] != "payloadSampleIdx"@[0]);
    assert("lazyRendering"@[0] != "scrollYOffset"@[0]);
    assert("lazyRendering"@[0] != "untrustedSpec"@[0]);
    assert("menuToggle"@[0] != "noAutoAuth"@[0]);
    assert("nativeScrollbars"@[0] != "payloadSampleIdx"@[0]);
    assert("scrollYOffset"@[0] != "untrustedSpec"@[0]);
    assert(top_level_keys() =~= seq![
        "redocVersion"@, "tryItOutEnabled"@, "tryItBoxContainerId"@, "containerId"@,
        "operationBoxSelector"@, "selectedOperationClass"@, "dependenciesVersions"@,
        "authBtn"@, "tryBtn"@, "disableSearch"@, "expandDefaultServerVariables"@,
        "expandResponses"@, "generatedPayloadSamplesMaxDepth"@, "maxDisplayedEnumValues"@,
        "hideDownloadButton"@, "hideHostname"@, "hideLoading"@, "hideSchemaPattern"@,
        "hideSingleRequestSampleTab"@, "expandSingleSchemaField"@, "jsonSampleExpandLevel"@,
        "hideSchemaTitles"@, "simpleOneOfTypeLabel"@, "lazyRendering"@, "menuToggle"@,
        "nativeScrollbars"@, "noAutoAuth"@, "onlyRequiredInSamples"@, "pathInMiddlePanel"@,
        "requiredPropsFirst"@, "scrollYOffset"@, "selector"@, "showExtensions"@,
        "sortPropsAlphabetically"@, "payloadSampleIdx"@, "theme"@, "untrustedSpec"@,
    ]);
}

/// A configuration written as a payload reads back as itself.
pub proof fn lemma_configuration_round_trip(c: ConfigurationView)
    ensures
        configuration_from(configuration_wire(c)) == Ok::<ConfigurationView, ConfigErrorView>(c),
{
    let tk = redoc_try_it_out_options_keys();
    let rk = redoc_options_keys();
    let a = redoc_try_it_out_options_wire(c.bootstrap);
    let b = redoc_options_wire(c.renderer);
    lemma_top_level_keys();
    assert forall|i: int| 0 <= i < tk.len() implies lookup(a + b, #[trigger] tk[i]) == lookup(
        a,
        tk[i],
    ) by {
        assert forall|j: int| 0 <= j < rk.len() implies rk[j] != tk[i] by {
            assert(top_level_keys()[i] == tk[i]);
            assert(top_level_keys()[tk.len() + j] == rk[j]);
        }
        lemma_lookup_fields_wire_absent(rk, redoc_options_values(c.renderer), tk[i]);
        lemma_lookup_append(a, b, tk[i]);
    }
    assert forall|i: int| 0 <= i < rk.len() implies lookup(a + b, #[trigger] rk[i]) == lookup(
        b,
        rk[i],
    ) by {
        assert forall|j: int| 0 <= j < tk.len() implies tk[j] != rk[i] by {
            assert(top_level_keys()[j] == tk[j]);
            assert(top_level_keys()[tk.len() + i] == rk[i]);
        }
        lemma_lookup_fields_wire_absent(tk, redoc_try_it_out_options_values(c.bootstrap), rk[i]);
        lemma_lookup_append(a, b, rk[i]);
    }
    lemma_redoc_try_it_out_options_own_keys(a + b, a);
    lemma_redoc_options_own_keys(a + b, b);
    lemma_redoc_try_it_out_options_round_trip(c.bootstrap);
    lemma_redoc_options_round_trip(c.renderer);
}

/// Writing what a payload reads as, and reading that again, gives the same
/// configuration.
pub proof fn lemma_parse_write_parse(x: Json)
    requires
        configuration_from(x) is Ok,
    ensures
        configuration_from(configuration_wire(configuration_from(x)->Ok_0)) == configuration_from(x),
{
    lemma_configuration_round_trip(configuration_from(x)->Ok_0);
}

/// A payload that cannot be read yields an error whose path leads to a value
/// of the payload that is not of the kind the error names.
pub proof fn lemma_error_names_mismatch(x: Json)
    requires
        configuration_from(x) is Err,
    ensures
        names_mismatch(x, configuration_from(x)->Err_0),
{
    match x {
        Json::Object(e) => {
            if redoc_try_it_out_options_from(e) is Err {
                lemma_redoc_try_it_out_options_mismatch(e);
            } else {
                lemma_redoc_options_mismatch(e);
            }
        },
        _ => {
            assert(value_at(x, Seq::empty()) == Some(x));
        },
    }
}

/// After a successful read every bootstrap setting has a value: the one the
/// payload gives, or its default where the payload leaves the key out.
pub proof fn lemma_settings_resolved(e: Entries)
    requires
        redoc_try_it_out_options_from(e) is Ok,
    ensures
        ({
            let b = redoc_try_it_out_options_from(e)->Ok_0;
            &&& lookup(e, "redocVersion"@) is None ==> b.redoc_version == "2.1.3"@
            &&& lookup(e, "tryItOutEnabled"@) is None ==> b.try_it_out_enabled
            &&& lookup(e, "tryItBoxContainerId"@) is None ==> b.try_it_box_container_id
                == "try-out-wrapper"@
            &&& lookup(e, "containerId"@) is None ==> b.container_id == "redoc-container"@
            &&& lookup(e, "operationBoxSelector"@) is None ==> b.operation_box_selector
                == "[data-section-id]"@
            &&& lookup(e, "selectedOperationClass"@) is None ==> b.selected_operation_class
                == "try"@
            &&& lookup(e, "dependenciesVersions"@) is None ==> b.dependencies_versions.jquery
                == "3.5.1"@ && b.dependencies_versions.jquery_scroll_to == "2.1.3"@
            &&& lookup(e, "redocVersion"@) matches Some(Json::Text(t)) ==> b.redoc_version == t
            &&& lookup(e, "tryItOutEnabled"@) matches Some(Json::Bool(f)) ==> b.try_it_out_enabled
                == f
            &&& lookup(e, "tryItBoxContainerId"@) matches Some(Json::Text(t))
                ==> b.try_it_box_container_id == t
            &&& lookup(e, "containerId"@) matches Some(Json::Text(t)) ==> b.container_id == t
            &&& lookup(e, "operationBoxSelector"@) matches Some(Json::Text(t))
                ==> b.operation_box_selector == t
            &&& lookup(e, "selectedOperationClass"@) matches Some(Json::Text(t))
                ==> b.selected_operation_class == t
        }),
{
    reveal(redoc_try_it_out_options_from);
    reveal(dependencies_versions_from);
    reveal(lookup);
}

/// An empty payload reads as the defaults: the bootstrap's own values, and no
/// renderer option set.
pub proof fn lemma_empty_payload()
    ensures
        configuration_from(Json::Object(Seq::empty())) is Ok,
        ({
            let c = configuration_from(Json::Object(Seq::empty()))->Ok_0;
            &&& c.bootstrap.redoc_version == "2.1.3"@
            &&& c.bootstrap.container_id == "redoc-container"@
            &&& c.bootstrap.try_it_out_enabled
            &&& c.bootstrap.dependencies_versions.jquery == "3.5.1"@
            &&& c.bootstrap.dependencies_versions.jquery_scroll_to == "2.1.3"@
            &&& c.renderer.theme is None
            &&& c.renderer.disable_search is None
        }),
{
    lemma_redoc_try_it_out_options_empty();
    lemma_redoc_options_empty();
    lemma_settings_resolved(Seq::empty());
    reveal(lookup);
    reveal(redoc_options_from);
}

/// The payload is an object whose recognised keys, at every depth, hold values
/// of their kinds.
pub open spec fn payload_well_typed(x: Json) -> bool {
    &&& x is Object
    &&& redoc_try_it_out_options_well_typed(x->Object_0)
    &&& redoc_options_well_typed(x->Object_0)
}

/// A payload is read without error exactly when it is well-typed; otherwise
/// the error names a value of the payload that has the wrong kind, and no
/// configuration comes back at all.
pub proof fn lemma_parse_succeeds_iff_well_typed(x: Json)
    ensures
        configuration_from(x) is Ok <==> payload_well_typed(x),
        configuration_from(x) is Err ==> names_mismatch(x, configuration_from(x)->Err_0),
{
    if let Json::Object(e) = x {
        lemma_redoc_try_it_out_options_reads_iff_well_typed(e);
        lemma_redoc_options_reads_iff_well_typed(e);
    }
    if configuration_from(x) is Err {
        lemma_error_names_mismatch(x);
    }
}

impl Configuration {
    /// Reads a configuration from a payload, which must be an object.
    pub fn parse(payload: &Value) -> (r: Result<Configuration, ConfigError>)
        ensures
            match r {
                Ok(c) => configuration_from(payload@) == Ok::<ConfigurationView, ConfigErrorView>(
                    c@,
                ),
                Err(e) => configuration_from(payload@) == Err::<ConfigurationView, ConfigErrorView>(
                    e@,
                ),
            },
    {
        match payload {
            Value::Object(entries) => {
                proof {
                    lemma_object_view(*entries);
                }
                let bootstrap = match RedocTryItOutOptions::from_entries(entries) {
                    Ok(b) => b,
                    Err(e) => return Err(e),
                };
                let renderer = match RedocOptions::from_entries(entries) {
                    Ok(o) => o,
                    Err(e) => return Err(e),
                };
                Ok(Configuration { bootstrap, renderer })
            },
            _ => {
                let e = ConfigError { path: Vec::new(), expected: Expected::Object };
                assert(e@.path =~= Seq::<Seq<char>>::empty());
                Err(e)
            },
        }
    }

    /// Writes the whole configuration as a payload.
    pub fn to_value(&self) -> (r: Value)
        ensures
            r@ == configuration_wire(self@),
    {
        let mut entries = self.bootstrap.to_entries();
        let ghost front = entries@;
        let mut rest = self.renderer.to_entries();
        let ghost back = rest@;
        entries.append(&mut rest);
        assert(entries_view(entries@) =~= entries_view(front) + entries_view(back));
        object_value(entries)
    }

    /// The options handed to the renderer: its own options alone, none of the
    /// bootstrap's settings.
    pub fn renderer_payload(&self) -> (r: Value)
        ensures
            r@ == Json::Object(redoc_options_wire(self.renderer@)),
    {
        object_value(self.renderer.to_entries())
    }
}

} // verus!
