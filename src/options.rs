//! The bootstrap's own settings and the renderer's options.

use crate::fields::{
    at, count_field, count_json, count_value, flag_field, flag_json, flag_or, flag_value,
    group_field, group_or, lemma_count_round_trip, lemma_list_round_trip, list_field, list_json,
    list_value, nest, nest_or, read_count, read_flag, read_flag_or, read_group, read_group_or,
    read_list, read_text, read_text_or, text_field, text_json, text_or, text_value, ConfigError,
    ConfigErrorView,
};
use crate::fields::{
    lemma_leaf_mismatch, lemma_nested_mismatch, names_mismatch, optional_fits, setting_fits,
    Expected,
};
use crate::theme::{
    lemma_theme_options_mismatch, lemma_theme_options_reads_iff_well_typed,
    lemma_theme_options_round_trip, theme_options_from, theme_options_well_typed,
    theme_options_wire, ThemeOptions, ThemeOptionsView,
};
use crate::value::{
    distinct_keys, entries_of, entries_view, fields_wire, lemma_lookup_fields_wire, lookup,
    object_value, opt_views, Entries, Json, Value,
};
use vstd::prelude::*;

verus! {

/// Versions of the scripts that the try-it-out feature loads.
#[derive(Debug, Clone, PartialEq)]
pub struct DependenciesVersions {
    pub jquery: String,
    pub jquery_scroll_to: String,
}

pub struct DependenciesVersionsView {
    pub jquery: Seq<char>,
    pub jquery_scroll_to: Seq<char>,
}

impl View for DependenciesVersions {
    type V = DependenciesVersionsView;

    open spec fn view(&self) -> DependenciesVersionsView {
        DependenciesVersionsView {
            jquery: self.jquery@,
            jquery_scroll_to: self.jquery_scroll_to@,
        }
    }
}

pub open spec fn dependencies_versions_keys() -> Seq<Seq<char>> {
    seq!["jquery"@, "jqueryScrollTo"@]
}

/// The record that the entries of an object denote, or the first field, in
/// field order, that has the wrong kind.
#[verifier::opaque]
pub open spec fn dependencies_versions_from(e: Entries) -> Result<
    DependenciesVersionsView,
    ConfigErrorView,
> {
    let jquery = at("jquery"@, text_or(e, "jquery"@, "3.5.1"@));
    let jquery_scroll_to = at("jqueryScrollTo"@, text_or(e, "jqueryScrollTo"@, "2.1.3"@));
    if jquery is Err {
        Err(jquery->Err_0)
    } else if jquery_scroll_to is Err {
        Err(jquery_scroll_to->Err_0)
    } else {
        Ok(
            DependenciesVersionsView {
                jquery: jquery->Ok_0,
                jquery_scroll_to: jquery_scroll_to->Ok_0,
            },
        )
    }
}

/// The value of each field in wire form, in field order; `None` for an unset
/// field.
pub open spec fn dependencies_versions_values(v: DependenciesVersionsView) -> Seq<Option<Json>> {
    seq![
        Some(Json::Text(v.jquery)),
        Some(Json::Text(v.jquery_scroll_to)),
    ]
}

/// The entries that the record is written as: its set fields, in field order.
pub open spec fn dependencies_versions_wire(v: DependenciesVersionsView) -> Entries {
    fields_wire(dependencies_versions_keys(), dependencies_versions_values(v))
}

pub proof fn lemma_dependencies_versions_keys()
    ensures
        distinct_keys(dependencies_versions_keys()),
{
    reveal_strlit("jquery");
    reveal_strlit("jqueryScrollTo");
    assert("jquery"@.len() == 6);
    assert("jqueryScrollTo"@.len() == 14);
}

/// A record written as entries reads back as itself.
pub proof fn lemma_dependencies_versions_round_trip(v: DependenciesVersionsView)
    ensures
        dependencies_versions_from(dependencies_versions_wire(v))
            == Ok::<DependenciesVersionsView, ConfigErrorView>(v),
{
    reveal(dependencies_versions_from);
    let e = dependencies_versions_wire(v);
    let keys = dependencies_versions_keys();
    let values = dependencies_versions_values(v);
    lemma_dependencies_versions_keys();
    assert(at("jquery"@, text_or(e, "jquery"@, "3.5.1"@))
        == Ok::<Seq<char>, ConfigErrorView>(v.jquery)) by {
        lemma_lookup_fields_wire(keys, values, 0);
        assert(keys[0] == "jquery"@);
    }
    assert(at("jqueryScrollTo"@, text_or(e, "jqueryScrollTo"@, "2.1.3"@))
        == Ok::<Seq<char>, ConfigErrorView>(v.jquery_scroll_to)) by {
        lemma_lookup_fields_wire(keys, values, 1);
        assert(keys[1] == "jqueryScrollTo"@);
    }
}

/// Every key of the record that the entries hold has a value of its kind;
/// a nested record is well-typed in turn. Other keys may hold anything.
#[verifier::opaque]
pub open spec fn dependencies_versions_well_typed(e: Entries) -> bool {
    &&& setting_fits(lookup(e, "jquery"@), Expected::Text)
    &&& setting_fits(lookup(e, "jqueryScrollTo"@), Expected::Text)
}

/// The record reads without error exactly when the entries are well-typed.
pub proof fn lemma_dependencies_versions_reads_iff_well_typed(e: Entries)
    ensures
        dependencies_versions_from(e) is Ok <==> dependencies_versions_well_typed(e),
{
    reveal(dependencies_versions_from);
    reveal(dependencies_versions_well_typed);
}

/// What entries can be read as when they hold no keys.
pub proof fn lemma_dependencies_versions_empty()
    ensures
        dependencies_versions_from(Seq::empty()) is Ok,
{
    reveal(lookup);
    reveal(dependencies_versions_from);
}

/// A field of the wrong kind fails the whole record: nothing is read in part.
pub proof fn lemma_dependencies_versions_wrong_field_fails(e: Entries)
    ensures
        (at("jquery"@, text_or(e, "jquery"@, "3.5.1"@)) is Err
            || at("jqueryScrollTo"@, text_or(e, "jqueryScrollTo"@, "2.1.3"@)) is Err)
            ==> dependencies_versions_from(e) is Err,
{
    reveal(dependencies_versions_from);
}

/// A failed read names a value of the entries that has the wrong kind.
pub proof fn lemma_dependencies_versions_mismatch(e: Entries)
    requires
        dependencies_versions_from(e) is Err,
    ensures
        names_mismatch(Json::Object(e), dependencies_versions_from(e)->Err_0),
{
    if at("jquery"@, text_or(e, "jquery"@, "3.5.1"@)) is Err {
        assert(dependencies_versions_from(e)
            == Err::<DependenciesVersionsView, ConfigErrorView>(at("jquery"@, text_or(e, "jquery"@, "3.5.1"@))->Err_0)) by {
            reveal(dependencies_versions_from);
        }
        lemma_leaf_mismatch(e, "jquery"@, text_or(e, "jquery"@, "3.5.1"@)->Err_0);
    } else if at("jqueryScrollTo"@, text_or(e, "jqueryScrollTo"@, "2.1.3"@)) is Err {
        assert(dependencies_versions_from(e)
            == Err::<DependenciesVersionsView, ConfigErrorView>(at("jqueryScrollTo"@, text_or(e, "jqueryScrollTo"@, "2.1.3"@))->Err_0)) by {
            reveal(dependencies_versions_from);
        }
        lemma_leaf_mismatch(e, "jqueryScrollTo"@, text_or(e, "jqueryScrollTo"@, "2.1.3"@)->Err_0);
    } else {
        assert(dependencies_versions_from(e) is Ok) by {
            reveal(dependencies_versions_from);
        }
    }
}

impl DependenciesVersions {
    /// Reads the record from the entries of an object. Unknown keys are ignored.
    pub fn from_entries(entries: &Vec<(String, Value)>) -> (r: Result<DependenciesVersions, ConfigError>)
        ensures
            match r {
                Ok(v) => dependencies_versions_from(entries_view(entries@)) == Ok::<DependenciesVersionsView, ConfigErrorView>(v@),
                Err(e) => dependencies_versions_from(entries_view(entries@)) == Err::<DependenciesVersionsView, ConfigErrorView>(e@),
            },
    {
        proof {
            reveal(dependencies_versions_from);
        }
        let jquery = match read_text_or(entries, "jquery", "3.5.1") {
            Ok(x) => x,
            Err(kind) => return Err(ConfigError::leaf("jquery", kind)),
        };
        let jquery_scroll_to = match read_text_or(entries, "jqueryScrollTo", "2.1.3") {
            Ok(x) => x,
            Err(kind) => return Err(ConfigError::leaf("jqueryScrollTo", kind)),
        };
        Ok(DependenciesVersions { jquery, jquery_scroll_to })
    }

    /// Writes the record as the entries of an object: each set field under its
    /// key, in field order.
    pub fn to_entries(&self) -> (r: Vec<(String, Value)>)
        ensures
            entries_view(r@) == dependencies_versions_wire(self@),
    {
        let keys: [&str; 2] = ["jquery", "jqueryScrollTo"];
        let values: Vec<Option<Value>> = vec![
            Some(Value::Text(self.jquery.clone())),
            Some(Value::Text(self.jquery_scroll_to.clone())),
        ];
        assert(keys@.map_values(|k: &str| k@) =~= dependencies_versions_keys());
        assert(opt_views(values@) =~= dependencies_versions_values(self@));
        entries_of(&keys, values)
    }
}

impl Default for DependenciesVersions {
    /// What an empty object reads as.
    fn default() -> (r: DependenciesVersions)
        ensures
            dependencies_versions_from(Seq::empty()) == Ok::<DependenciesVersionsView, ConfigErrorView>(r@),
    {
        proof {
            reveal(lookup);
            reveal(dependencies_versions_from);
        }
        DependenciesVersions {
            jquery: String::from_str("3.5.1"),
            jquery_scroll_to: String::from_str("2.1.3"),
        }
    }
}

/// Placement and look of the authorize button.
#[derive(Debug, Clone, PartialEq)]
pub struct AuthBtnOptions {
    pub pos_selector: Option<String>,
    pub text: Option<String>,
    pub class_name: Option<String>,
}

pub struct AuthBtnOptionsView {
    pub pos_selector: Option<Seq<char>>,
    pub text: Option<Seq<char>>,
    pub class_name: Option<Seq<char>>,
}

impl View for AuthBtnOptions {
    type V = AuthBtnOptionsView;

    open spec fn view(&self) -> AuthBtnOptionsView {
        AuthBtnOptionsView {
            pos_selector: self.pos_selector.deep_view(),
            text: self.text.deep_view(),
            class_name: self.class_name.deep_view(),
        }
    }
}

pub open spec fn auth_btn_options_keys() -> Seq<Seq<char>> {
    seq!["posSelector"@, "text"@, "className"@]
}

/// The record that the entries of an object denote, or the first field, in
/// field order, that has the wrong kind.
#[verifier::opaque]
pub open spec fn auth_btn_options_from(e: Entries) -> Result<AuthBtnOptionsView, ConfigErrorView> {
    let pos_selector = at("posSelector"@, text_field(e, "posSelector"@));
    let text = at("text"@, text_field(e, "text"@));
    let class_name = at("className"@, text_field(e, "className"@));
    if pos_selector is Err {
        Err(pos_selector->Err_0)
    } else if text is Err {
        Err(text->Err_0)
    } else if class_name is Err {
        Err(class_name->Err_0)
    } else {
        Ok(
            AuthBtnOptionsView {
                pos_selector: pos_selector->Ok_0,
                text: text->Ok_0,
                class_name: class_name->Ok_0,
            },
        )
    }
}

/// The value of each field in wire form, in field order; `None` for an unset
/// field.
pub open spec fn auth_btn_options_values(v: AuthBtnOptionsView) -> Seq<Option<Json>> {
    seq![
        text_json(v.pos_selector),
        text_json(v.text),
        text_json(v.class_name),
    ]
}

/// The entries that the record is written as: its set fields, in field order.
pub open spec fn auth_btn_options_wire(v: AuthBtnOptionsView) -> Entries {
    fields_wire(auth_btn_options_keys(), auth_btn_options_values(v))
}

pub proof fn lemma_auth_btn_options_keys()
    ensures
        distinct_keys(auth_btn_options_keys()),
{
    reveal_strlit("posSelector");
    reveal_strlit("text");
    reveal_strlit("className");
    assert("posSelector"@.len() == 11);
    assert("text"@.len() == 4);
    assert("className"@.len() == 9);
}

/// A record written as entries reads back as itself.
pub proof fn lemma_auth_btn_options_round_trip(v: AuthBtnOptionsView)
    ensures
        auth_btn_options_from(auth_btn_options_wire(v))
            == Ok::<AuthBtnOptionsView, ConfigErrorView>(v),
{
    reveal(auth_btn_options_from);
    let e = auth_btn_options_wire(v);
    let keys = auth_btn_options_keys();
    let values = auth_btn_options_values(v);
    lemma_auth_btn_options_keys();
    assert(at("posSelector"@, text_field(e, "posSelector"@))
        == Ok::<Option<Seq<char>>, ConfigErrorView>(v.pos_selector)) by {
        lemma_lookup_fields_wire(keys, values, 0);
        assert(keys[0] == "posSelector"@);
    }
    assert(at("text"@, text_field(e, "text"@))
        == Ok::<Option<Seq<char>>, ConfigErrorView>(v.text)) by {
        lemma_lookup_fields_wire(keys, values, 1);
        assert(keys[1] == "text"@);
    }
    assert(at("className"@, text_field(e, "className"@))
        == Ok::<Option<Seq<char>>, ConfigErrorView>(v.class_name)) by {
        lemma_lookup_fields_wire(keys, values, 2);
        assert(keys[2] == "className"@);
    }
}

/// Every key of the record that the entries hold has a value of its kind;
/// a nested record is well-typed in turn. Other keys may hold anything.
#[verifier::opaque]
pub open spec fn auth_btn_options_well_typed(e: Entries) -> bool {
    &&& optional_fits(lookup(e, "posSelector"@), Expected::Text)
    &&& optional_fits(lookup(e, "text"@), Expected::Text)
    &&& optional_fits(lookup(e, "className"@), Expected::Text)
}

/// The record reads without error exactly when the entries are well-typed.
pub proof fn lemma_auth_btn_options_reads_iff_well_typed(e: Entries)
    ensures
        auth_btn_options_from(e) is Ok <==> auth_btn_options_well_typed(e),
{
    reveal(auth_btn_options_from);
    reveal(auth_btn_options_well_typed);
}

/// What entries can be read as when they hold no keys.
pub proof fn lemma_auth_btn_options_empty()
    ensures
        auth_btn_options_from(Seq::empty()) is Ok,
{
    reveal(lookup);
    reveal(auth_btn_options_from);
}

/// A field of the wrong kind fails the whole record: nothing is read in part.
pub proof fn lemma_auth_btn_options_wrong_field_fails(e: Entries)
    ensures
        (at("posSelector"@, text_field(e, "posSelector"@)) is Err
            || at("text"@, text_field(e, "text"@)) is Err
            || at("className"@, text_field(e, "className"@)) is Err)
            ==> auth_btn_options_from(e) is Err,
{
    reveal(auth_btn_options_from);
}

/// A failed read names a value of the entries that has the wrong kind.
pub proof fn lemma_auth_btn_options_mismatch(e: Entries)
    requires
        auth_btn_options_from(e) is Err,
    ensures
        names_mismatch(Json::Object(e), auth_btn_options_from(e)->Err_0),
{
    if at("posSelector"@, text_field(e, "posSelector"@)) is Err {
        assert(auth_btn_options_from(e)
            == Err::<AuthBtnOptionsView, ConfigErrorView>(at("posSelector"@, text_field(e, "posSelector"@))->Err_0)) by {
            reveal(auth_btn_options_from);
        }
        lemma_leaf_mismatch(e, "posSelector"@, text_field(e, "posSelector"@)->Err_0);
    } else if at("text"@, text_field(e, "text"@)) is Err {
        assert(auth_btn_options_from(e)
            == Err::<AuthBtnOptionsView, ConfigErrorView>(at("text"@, text_field(e, "text"@))->Err_0)) by {
            reveal(auth_btn_options_from);
        }
        lemma_leaf_mismatch(e, "text"@, text_field(e, "text"@)->Err_0);
    } else if at("className"@, text_field(e, "className"@)) is Err {
        assert(auth_btn_options_from(e)
            == Err::<AuthBtnOptionsView, ConfigErrorView>(at("className"@, text_field(e, "className"@))->Err_0)) by {
            reveal(auth_btn_options_from);
        }
        lemma_leaf_mismatch(e, "className"@, text_field(e, "className"@)->Err_0);
    } else {
        assert(auth_btn_options_from(e) is Ok) by {
            reveal(auth_btn_options_from);
        }
    }
}

impl AuthBtnOptions {
    /// Reads the record from the entries of an object. Unknown keys are ignored.
    pub fn from_entries(entries: &Vec<(String, Value)>) -> (r: Result<AuthBtnOptions, ConfigError>)
        ensures
            match r {
                Ok(v) => auth_btn_options_from(entries_view(entries@)) == Ok::<AuthBtnOptionsView, ConfigErrorView>(v@),
                Err(e) => auth_btn_options_from(entries_view(entries@)) == Err::<AuthBtnOptionsView, ConfigErrorView>(e@),
            },
    {
        proof {
            reveal(auth_btn_options_from);
        }
        let pos_selector = match read_text(entries, "posSelector") {
            Ok(x) => x,
            Err(kind) => return Err(ConfigError::leaf("posSelector", kind)),
        };
        let text = match read_text(entries, "text") {
            Ok(x) => x,
            Err(kind) => return Err(ConfigError::leaf("text", kind)),
        };
        let class_name = match read_text(entries, "className") {
            Ok(x) => x,
            Err(kind) => return Err(ConfigError::leaf("className", kind)),
        };
        Ok(AuthBtnOptions { pos_selector, text, class_name })
    }

    /// Writes the record as the entries of an object: each set field under its
    /// key, in field order.
    pub fn to_entries(&self) -> (r: Vec<(String, Value)>)
        ensures
            entries_view(r@) == auth_btn_options_wire(self@),
    {
        let keys: [&str; 3] = ["posSelector", "text", "className"];
        let values: Vec<Option<Value>> = vec![
            text_value(&self.pos_selector),
            text_value(&self.text),
            text_value(&self.class_name),
        ];
        assert(keys@.map_values(|k: &str| k@) =~= auth_btn_options_keys());
        assert(opt_views(values@) =~= auth_btn_options_values(self@));
        entries_of(&keys, values)
    }
}

impl Default for AuthBtnOptions {
    /// What an empty object reads as.
    fn default() -> (r: AuthBtnOptions)
        ensures
            auth_btn_options_from(Seq::empty()) == Ok::<AuthBtnOptionsView, ConfigErrorView>(r@),
    {
        proof {
            reveal(lookup);
            reveal(auth_btn_options_from);
        }
        AuthBtnOptions {
            pos_selector: None,
            text: None,
            class_name: None,
        }
    }
}

/// Placement and look of the try-it-out button.
#[derive(Debug, Clone, PartialEq)]
pub struct TryBtnOptions {
    pub sibling_selector: Option<String>,
    pub text: Option<String>,
    pub class_name: Option<String>,
    pub selected_class_name: Option<String>,
}

pub struct TryBtnOptionsView {
    pub sibling_selector: Option<Seq<char>>,
    pub text: Option<Seq<char>>,
    pub class_name: Option<Seq<char>>,
    pub selected_class_name: Option<Seq<char>>,
}

impl View for TryBtnOptions {
    type V = TryBtnOptionsView;

    open spec fn view(&self) -> TryBtnOptionsView {
        TryBtnOptionsView {
            sibling_selector: self.sibling_selector.deep_view(),
            text: self.text.deep_view(),
            class_name: self.class_name.deep_view(),
            selected_class_name: self.selected_class_name.deep_view(),
        }
    }
}

pub open spec fn try_btn_options_keys() -> Seq<Seq<char>> {
    seq!["siblingSelector"@, "text"@, "className"@, "selectedClassName"@]
}

/// The record that the entries of an object denote, or the first field, in
/// field order, that has the wrong kind.
#[verifier::opaque]
pub open spec fn try_btn_options_from(e: Entries) -> Result<TryBtnOptionsView, ConfigErrorView> {
    let sibling_selector = at("siblingSelector"@, text_field(e, "siblingSelector"@));
    let text = at("text"@, text_field(e, "text"@));
    let class_name = at("className"@, text_field(e, "className"@));
    let selected_class_name = at("selectedClassName"@, text_field(e, "selectedClassName"@));
    if sibling_selector is Err {
        Err(sibling_selector->Err_0)
    } else if text is Err {
        Err(text->Err_0)
    } else if class_name is Err {
        Err(class_name->Err_0)
    } else if selected_class_name is Err {
        Err(selected_class_name->Err_0)
    } else {
        Ok(
            TryBtnOptionsView {
                sibling_selector: sibling_selector->Ok_0,
                text: text->Ok_0,
                class_name: class_name->Ok_0,
                selected_class_name: selected_class_name->Ok_0,
            },
        )
    }
}

/// The value of each field in wire form, in field order; `None` for an unset
/// field.
pub open spec fn try_btn_options_values(v: TryBtnOptionsView) -> Seq<Option<Json>> {
    seq![
        text_json(v.sibling_selector),
        text_json(v.text),
        text_json(v.class_name),
        text_json(v.selected_class_name),
    ]
}

/// The entries that the record is written as: its set fields, in field order.
pub open spec fn try_btn_options_wire(v: TryBtnOptionsView) -> Entries {
    fields_wire(try_btn_options_keys(), try_btn_options_values(v))
}

pub proof fn lemma_try_btn_options_keys()
    ensures
        distinct_keys(try_btn_options_keys()),
{
    reveal_strlit("siblingSelector");
    reveal_strlit("text");
    reveal_strlit("className");
    reveal_strlit("selectedClassName");
    assert("siblingSelector"@.len() == 15);
    assert("text"@.len() == 4);
    assert("className"@.len() == 9);
    assert("selectedClassName"@.len() == 17);
}

/// A record written as entries reads back as itself.
pub proof fn lemma_try_btn_options_round_trip(v: TryBtnOptionsView)
    ensures
        try_btn_options_from(try_btn_options_wire(v))
            == Ok::<TryBtnOptionsView, ConfigErrorView>(v),
{
    reveal(try_btn_options_from);
    let e = try_btn_options_wire(v);
    let keys = try_btn_options_keys();
    let values = try_btn_options_values(v);
    lemma_try_btn_options_keys();
    assert(at("siblingSelector"@, text_field(e, "siblingSelector"@))
        == Ok::<Option<Seq<char>>, ConfigErrorView>(v.sibling_selector)) by {
        lemma_lookup_fields_wire(keys, values, 0);
        assert(keys[0] == "siblingSelector"@);
    }
    assert(at("text"@, text_field(e, "text"@))
        == Ok::<Option<Seq<char>>, ConfigErrorView>(v.text)) by {
        lemma_lookup_fields_wire(keys, values, 1);
        assert(keys[1] == "text"@);
    }
    assert(at("className"@, text_field(e, "className"@))
        == Ok::<Option<Seq<char>>, ConfigErrorView>(v.class_name)) by {
        lemma_lookup_fields_wire(keys, values, 2);
        assert(keys[2] == "className"@);
    }
    assert(at("selectedClassName"@, text_field(e, "selectedClassName"@))
        == Ok::<Option<Seq<char>>, ConfigErrorView>(v.selected_class_name)) by {
        lemma_lookup_fields_wire(keys, values, 3);
        assert(keys[3] == "selectedClassName"@);
    }
}

/// Every key of the record that the entries hold has a value of its kind;
/// a nested record is well-typed in turn. Other keys may hold anything.
#[verifier::opaque]
pub open spec fn try_btn_options_well_typed(e: Entries) -> bool {
    &&& optional_fits(lookup(e, "siblingSelector"@), Expected::Text)
    &&& optional_fits(lookup(e, "text"@), Expected::Text)
    &&& optional_fits(lookup(e, "className"@), Expected::Text)
    &&& optional_fits(lookup(e, "selectedClassName"@), Expected::Text)
}

/// The record reads without error exactly when the entries are well-typed.
pub proof fn lemma_try_btn_options_reads_iff_well_typed(e: Entries)
    ensures
        try_btn_options_from(e) is Ok <==> try_btn_options_well_typed(e),
{
    reveal(try_btn_options_from);
    reveal(try_btn_options_well_typed);
}

/// What entries can be read as when they hold no keys.
pub proof fn lemma_try_btn_options_empty()
    ensures
        try_btn_options_from(Seq::empty()) is Ok,
{
    reveal(lookup);
    reveal(try_btn_options_from);
}

/// A field of the wrong kind fails the whole record: nothing is read in part.
pub proof fn lemma_try_btn_options_wrong_field_fails(e: Entries)
    ensures
        (at("siblingSelector"@, text_field(e, "siblingSelector"@)) is Err
            || at("text"@, text_field(e, "text"@)) is Err
            || at("className"@, text_field(e, "className"@)) is Err
            || at("selectedClassName"@, text_field(e, "selectedClassName"@)) is Err)
            ==> try_btn_options_from(e) is Err,
{
    reveal(try_btn_options_from);
}

/// A failed read names a value of the entries that has the wrong kind.
pub proof fn lemma_try_btn_options_mismatch(e: Entries)
    requires
        try_btn_options_from(e) is Err,
    ensures
        names_mismatch(Json::Object(e), try_btn_options_from(e)->Err_0),
{
    if at("siblingSelector"@, text_field(e, "siblingSelector"@)) is Err {
        assert(try_btn_options_from(e)
            == Err::<TryBtnOptionsView, ConfigErrorView>(at("siblingSelector"@, text_field(e, "siblingSelector"@))->Err_0)) by {
            reveal(try_btn_options_from);
        }
        lemma_leaf_mismatch(e, "siblingSelector"@, text_field(e, "siblingSelector"@)->Err_0);
    } else if at("text"@, text_field(e, "text"@)) is Err {
        assert(try_btn_options_from(e)
            == Err::<TryBtnOptionsView, ConfigErrorView>(at("text"@, text_field(e, "text"@))->Err_0)) by {
            reveal(try_btn_options_from);
        }
        lemma_leaf_mismatch(e, "text"@, text_field(e, "text"@)->Err_0);
    } else if at("className"@, text_field(e, "className"@)) is Err {
        assert(try_btn_options_from(e)
            == Err::<TryBtnOptionsView, ConfigErrorView>(at("className"@, text_field(e, "className"@))->Err_0)) by {
            reveal(try_btn_options_from);
        }
        lemma_leaf_mismatch(e, "className"@, text_field(e, "className"@)->Err_0);
    } else if at("selectedClassName"@, text_field(e, "selectedClassName"@)) is Err {
        assert(try_btn_options_from(e)
            == Err::<TryBtnOptionsView, ConfigErrorView>(at("selectedClassName"@, text_field(e, "selectedClassName"@))->Err_0)) by {
            reveal(try_btn_options_from);
        }
        lemma_leaf_mismatch(e, "selectedClassName"@, text_field(e, "selectedClassName"@)->Err_0);
    } else {
        assert(try_btn_options_from(e) is Ok) by {
            reveal(try_btn_options_from);
        }
    }
}

impl TryBtnOptions {
    /// Reads the record from the entries of an object. Unknown keys are ignored.
    pub fn from_entries(entries: &Vec<(String, Value)>) -> (r: Result<TryBtnOptions, ConfigError>)
        ensures
            match r {
                Ok(v) => try_btn_options_from(entries_view(entries@)) == Ok::<TryBtnOptionsView, ConfigErrorView>(v@),
                Err(e) => try_btn_options_from(entries_view(entries@)) == Err::<TryBtnOptionsView, ConfigErrorView>(e@),
            },
    {
        proof {
            reveal(try_btn_options_from);
        }
        let sibling_selector = match read_text(entries, "siblingSelector") {
            Ok(x) => x,
            Err(kind) => return Err(ConfigError::leaf("siblingSelector", kind)),
        };
        let text = match read_text(entries, "text") {
            Ok(x) => x,
            Err(kind) => return Err(ConfigError::leaf("text", kind)),
        };
        let class_name = match read_text(entries, "className") {
            Ok(x) => x,
            Err(kind) => return Err(ConfigError::leaf("className", kind)),
        };
        let selected_class_name = match read_text(entries, "selectedClassName") {
            Ok(x) => x,
            Err(kind) => return Err(ConfigError::leaf("selectedClassName", kind)),
        };
        Ok(TryBtnOptions { sibling_selector, text, class_name, selected_class_name })
    }

    /// Writes the record as the entries of an object: each set field under its
    /// key, in field order.
    pub fn to_entries(&self) -> (r: Vec<(String, Value)>)
        ensures
            entries_view(r@) == try_btn_options_wire(self@),
    {
        let keys: [&str; 4] = ["siblingSelector", "text", "className", "selectedClassName"];
        let values: Vec<Option<Value>> = vec![
            text_value(&self.sibling_selector),
            text_value(&self.text),
            text_value(&self.class_name),
            text_value(&self.selected_class_name),
        ];
        assert(keys@.map_values(|k: &str| k@) =~= try_btn_options_keys());
        assert(opt_views(values@) =~= try_btn_options_values(self@));
        entries_of(&keys, values)
    }
}

impl Default for TryBtnOptions {
    /// What an empty object reads as.
    fn default() -> (r: TryBtnOptions)
        ensures
            try_btn_options_from(Seq::empty()) == Ok::<TryBtnOptionsView, ConfigErrorView>(r@),
    {
        proof {
            reveal(lookup);
            reveal(try_btn_options_from);
        }
        TryBtnOptions {
            sibling_selector: None,
            text: None,
            class_name: None,
            selected_class_name: None,
        }
    }
}

/// Settings of the bootstrap itself. Every field has a value: an absent key
/// takes its default. None of it is handed to the renderer.
#[derive(Debug, Clone, PartialEq)]
pub struct RedocTryItOutOptions {
    /// Version of the renderer's script.
    pub redoc_version: String,
    pub try_it_out_enabled: bool,
    pub try_it_box_container_id: String,
    /// Id of the element the renderer mounts into.
    pub container_id: String,
    pub operation_box_selector: String,
    pub selected_operation_class: String,
    pub dependencies_versions: DependenciesVersions,
    pub auth_btn: AuthBtnOptions,
    pub try_btn: TryBtnOptions,
}

pub struct RedocTryItOutOptionsView {
    pub redoc_version: Seq<char>,
    pub try_it_out_enabled: bool,
    pub try_it_box_container_id: Seq<char>,
    pub container_id: Seq<char>,
    pub operation_box_selector: Seq<char>,
    pub selected_operation_class: Seq<char>,
    pub dependencies_versions: DependenciesVersionsView,
    pub auth_btn: AuthBtnOptionsView,
    pub try_btn: TryBtnOptionsView,
}

impl View for RedocTryItOutOptions {
    type V = RedocTryItOutOptionsView;

    open spec fn view(&self) -> RedocTryItOutOptionsView {
        RedocTryItOutOptionsView {
            redoc_version: self.redoc_version@,
            try_it_out_enabled: self.try_it_out_enabled,
            try_it_box_container_id: self.try_it_box_container_id@,
            container_id: self.container_id@,
            operation_box_selector: self.operation_box_selector@,
            selected_operation_class: self.selected_operation_class@,
            dependencies_versions: self.dependencies_versions@,
            auth_btn: self.auth_btn@,
            try_btn: self.try_btn@,
        }
    }
}

pub open spec fn redoc_try_it_out_options_keys() -> Seq<Seq<char>> {
    seq![
        "redocVersion"@,
        "tryItOutEnabled"@,
        "tryItBoxContainerId"@,
        "containerId"@,
        "operationBoxSelector"@,
        "selectedOperationClass"@,
        "dependenciesVersions"@,
        "authBtn"@,
        "tryBtn"@,
    ]
}

/// The record that the entries of an object denote, or the first field, in
/// field order, that has the wrong kind.
#[verifier::opaque]
pub open spec fn redoc_try_it_out_options_from(e: Entries) -> Result<
    RedocTryItOutOptionsView,
    ConfigErrorView,
> {
    let redoc_version = at("redocVersion"@, text_or(e, "redocVersion"@, "2.1.3"@));
    let try_it_out_enabled = at("tryItOutEnabled"@, flag_or(e, "tryItOutEnabled"@, true));
    let try_it_box_container_id = at("tryItBoxContainerId"@, text_or(e, "tryItBoxContainerId"@, "try-out-wrapper"@));
    let container_id = at("containerId"@, text_or(e, "containerId"@, "redoc-container"@));
    let operation_box_selector = at("operationBoxSelector"@, text_or(e, "operationBoxSelector"@, "[data-section-id]"@));
    let selected_operation_class = at("selectedOperationClass"@, text_or(e, "selectedOperationClass"@, "try"@));
    let dependencies_versions = nest_or(
        "dependenciesVersions"@,
        group_or(e, "dependenciesVersions"@),
        |g: Entries| dependencies_versions_from(g),
    );
    let auth_btn = nest_or(
        "authBtn"@,
        group_or(e, "authBtn"@),
        |g: Entries| auth_btn_options_from(g),
    );
    let try_btn = nest_or(
        "tryBtn"@,
        group_or(e, "tryBtn"@),
        |g: Entries| try_btn_options_from(g),
    );
    if redoc_version is Err {
        Err(redoc_version->Err_0)
    } else if try_it_out_enabled is Err {
        Err(try_it_out_enabled->Err_0)
    } else if try_it_box_container_id is Err {
        Err(try_it_box_container_id->Err_0)
    } else if container_id is Err {
        Err(container_id->Err_0)
    } else if operation_box_selector is Err {
        Err(operation_box_selector->Err_0)
    } else if selected_operation_class is Err {
        Err(selected_operation_class->Err_0)
    } else if dependencies_versions is Err {
        Err(dependencies_versions->Err_0)
    } else if auth_btn is Err {
        Err(auth_btn->Err_0)
    } else if try_btn is Err {
        Err(try_btn->Err_0)
    } else {
        Ok(
            RedocTryItOutOptionsView {
                redoc_version: redoc_version->Ok_0,
                try_it_out_enabled: try_it_out_enabled->Ok_0,
                try_it_box_container_id: try_it_box_container_id->Ok_0,
                container_id: container_id->Ok_0,
                operation_box_selector: operation_box_selector->Ok_0,
                selected_operation_class: selected_operation_class->Ok_0,
                dependencies_versions: dependencies_versions->Ok_0,
                auth_btn: auth_btn->Ok_0,
                try_btn: try_btn->Ok_0,
            },
        )
    }
}

/// The value of each field in wire form, in field order; `None` for an unset
/// field.
pub open spec fn redoc_try_it_out_options_values(v: RedocTryItOutOptionsView) -> Seq<Option<Json>> {
    seq![
        Some(Json::Text(v.redoc_version)),
        Some(Json::Bool(v.try_it_out_enabled)),
        Some(Json::Text(v.try_it_box_container_id)),
        Some(Json::Text(v.container_id)),
        Some(Json::Text(v.operation_box_selector)),
        Some(Json::Text(v.selected_operation_class)),
        Some(Json::Object(dependencies_versions_wire(v.dependencies_versions))),
        Some(Json::Object(auth_btn_options_wire(v.auth_btn))),
        Some(Json::Object(try_btn_options_wire(v.try_btn))),
    ]
}

/// The entries that the record is written as: its set fields, in field order.
pub open spec fn redoc_try_it_out_options_wire(v: RedocTryItOutOptionsView) -> Entries {
    fields_wire(redoc_try_it_out_options_keys(), redoc_try_it_out_options_values(v))
}

pub proof fn lemma_redoc_try_it_out_options_keys()
    ensures
        distinct_keys(redoc_try_it_out_options_keys()),
{
    reveal_strlit("redocVersion");
    reveal_strlit("tryItOutEnabled");
    reveal_strlit("tryItBoxContainerId");
    reveal_strlit("containerId");
    reveal_strlit("operationBoxSelector");
    reveal_strlit("selectedOperationClass");
    reveal_strlit("dependenciesVersions");
    reveal_strlit("authBtn");
    reveal_strlit("tryBtn");
    assert("redocVersion"@.len() == 12);
    assert("tryItOutEnabled"@.len() == 15);
    assert("tryItBoxContainerId"@.len() == 19);
    assert("containerId"@.len() == 11);
    assert("operationBoxSelector"@.len() == 20);
    assert("selectedOperationClass"@.len() == 22);
    assert("dependenciesVersions"@.len() == 20);
    assert("authBtn"@.len() == 7);
    assert("tryBtn"@.len() == 6);
    assert("operationBoxSelector"@[0] != "dependenciesVersions"@[0]);
}

/// Entries under other keys do not change what the record reads as.
pub proof fn lemma_redoc_try_it_out_options_own_keys(a: Entries, b: Entries)
    requires
        forall|i: int|
            0 <= i < redoc_try_it_out_options_keys().len() ==> lookup(a, #[trigger] redoc_try_it_out_options_keys()[i]) == lookup(
                b,
                redoc_try_it_out_options_keys()[i],
            ),
    ensures
        redoc_try_it_out_options_from(a) == redoc_try_it_out_options_from(b),
{
    reveal(redoc_try_it_out_options_from);
    assert(lookup(a, redoc_try_it_out_options_keys()[0]) == lookup(b, redoc_try_it_out_options_keys()[0]));
    assert(at("redocVersion"@, text_or(a, "redocVersion"@, "2.1.3"@)) == at("redocVersion"@, text_or(b, "redocVersion"@, "2.1.3"@)));
    assert(lookup(a, redoc_try_it_out_options_keys()[1]) == lookup(b, redoc_try_it_out_options_keys()[1]));
    assert(at("tryItOutEnabled"@, flag_or(a, "tryItOutEnabled"@, true)) == at("tryItOutEnabled"@, flag_or(b, "tryItOutEnabled"@, true)));
    assert(lookup(a, redoc_try_it_out_options_keys()[2]) == lookup(b, redoc_try_it_out_options_keys()[2]));
    assert(at("tryItBoxContainerId"@, text_or(a, "tryItBoxContainerId"@, "try-out-wrapper"@)) == at("tryItBoxContainerId"@, text_or(b, "tryItBoxContainerId"@, "try-out-wrapper"@)));
    assert(lookup(a, redoc_try_it_out_options_keys()[3]) == lookup(b, redoc_try_it_out_options_keys()[3]));
    assert(at("containerId"@, text_or(a, "containerId"@, "redoc-container"@)) == at("containerId"@, text_or(b, "containerId"@, "redoc-container"@)));
    assert(lookup(a, redoc_try_it_out_options_keys()[4]) == lookup(b, redoc_try_it_out_options_keys()[4]));
    assert(at("operationBoxSelector"@, text_or(a, "operationBoxSelector"@, "[data-section-id]"@)) == at("operationBoxSelector"@, text_or(b, "operationBoxSelector"@, "[data-section-id]"@)));
    assert(lookup(a, redoc_try_it_out_options_keys()[5]) == lookup(b, redoc_try_it_out_options_keys()[5]));
    assert(at("selectedOperationClass"@, text_or(a, "selectedOperationClass"@, "try"@)) == at("selectedOperationClass"@, text_or(b, "selectedOperationClass"@, "try"@)));
    assert(lookup(a, redoc_try_it_out_options_keys()[6]) == lookup(b, redoc_try_it_out_options_keys()[6]));
    assert(nest_or(
        "dependenciesVersions"@,
        group_or(a, "dependenciesVersions"@),
        |g: Entries| dependencies_versions_from(g),
    ) == nest_or(
        "dependenciesVersions"@,
        group_or(b, "dependenciesVersions"@),
        |g: Entries| dependencies_versions_from(g),
    ));
    assert(lookup(a, redoc_try_it_out_options_keys()[7]) == lookup(b, redoc_try_it_out_options_keys()[7]));
    assert(nest_or(
        "authBtn"@,
        group_or(a, "authBtn"@),
        |g: Entries| auth_btn_options_from(g),
    ) == nest_or(
        "authBtn"@,
        group_or(b, "authBtn"@),
        |g: Entries| auth_btn_options_from(g),
    ));
    assert(lookup(a, redoc_try_it_out_options_keys()[8]) == lookup(b, redoc_try_it_out_options_keys()[8]));
    assert(nest_or(
        "tryBtn"@,
        group_or(a, "tryBtn"@),
        |g: Entries| try_btn_options_from(g),
    ) == nest_or(
        "tryBtn"@,
        group_or(b, "tryBtn"@),
        |g: Entries| try_btn_options_from(g),
    ));
}

/// A record written as entries reads back as itself.
pub proof fn lemma_redoc_try_it_out_options_round_trip(v: RedocTryItOutOptionsView)
    ensures
        redoc_try_it_out_options_from(redoc_try_it_out_options_wire(v))
            == Ok::<RedocTryItOutOptionsView, ConfigErrorView>(v),
{
    reveal(redoc_try_it_out_options_from);
    let e = redoc_try_it_out_options_wire(v);
    let keys = redoc_try_it_out_options_keys();
    let values = redoc_try_it_out_options_values(v);
    lemma_redoc_try_it_out_options_keys();
    assert(at("redocVersion"@, text_or(e, "redocVersion"@, "2.1.3"@))
        == Ok::<Seq<char>, ConfigErrorView>(v.redoc_version)) by {
        lemma_lookup_fields_wire(keys, values, 0);
        assert(keys[0] == "redocVersion"@);
    }
    assert(at("tryItOutEnabled"@, flag_or(e, "tryItOutEnabled"@, true))
        == Ok::<bool, ConfigErrorView>(v.try_it_out_enabled)) by {
        lemma_lookup_fields_wire(keys, values, 1);
        assert(keys[1] == "tryItOutEnabled"@);
    }
    assert(at("tryItBoxContainerId"@, text_or(e, "tryItBoxContainerId"@, "try-out-wrapper"@))
        == Ok::<Seq<char>, ConfigErrorView>(v.try_it_box_container_id)) by {
        lemma_lookup_fields_wire(keys, values, 2);
        assert(keys[2] == "tryItBoxContainerId"@);
    }
    assert(at("containerId"@, text_or(e, "containerId"@, "redoc-container"@))
        == Ok::<Seq<char>, ConfigErrorView>(v.container_id)) by {
        lemma_lookup_fields_wire(keys, values, 3);
        assert(keys[3] == "containerId"@);
    }
    assert(at("operationBoxSelector"@, text_or(e, "operationBoxSelector"@, "[data-section-id]"@))
        == Ok::<Seq<char>, ConfigErrorView>(v.operation_box_selector)) by {
        lemma_lookup_fields_wire(keys, values, 4);
        assert(keys[4] == "operationBoxSelector"@);
    }
    assert(at("selectedOperationClass"@, text_or(e, "selectedOperationClass"@, "try"@))
        == Ok::<Seq<char>, ConfigErrorView>(v.selected_operation_class)) by {
        lemma_lookup_fields_wire(keys, values, 5);
        assert(keys[5] == "selectedOperationClass"@);
    }
    assert(nest_or(
        "dependenciesVersions"@,
        group_or(e, "dependenciesVersions"@),
        |g: Entries| dependencies_versions_from(g),
    )
        == Ok::<DependenciesVersionsView, ConfigErrorView>(v.dependencies_versions)) by {
        lemma_lookup_fields_wire(keys, values, 6);
        assert(keys[6] == "dependenciesVersions"@);
        lemma_dependencies_versions_round_trip(v.dependencies_versions);
    }
    assert(nest_or(
        "authBtn"@,
        group_or(e, "authBtn"@),
        |g: Entries| auth_btn_options_from(g),
    )
        == Ok::<AuthBtnOptionsView, ConfigErrorView>(v.auth_btn)) by {
        lemma_lookup_fields_wire(keys, values, 7);
        assert(keys[7] == "authBtn"@);
        lemma_auth_btn_options_round_trip(v.auth_btn);
    }
    assert(nest_or(
        "tryBtn"@,
        group_or(e, "tryBtn"@),
        |g: Entries| try_btn_options_from(g),
    )
        == Ok::<TryBtnOptionsView, ConfigErrorView>(v.try_btn)) by {
        lemma_lookup_fields_wire(keys, values, 8);
        assert(keys[8] == "tryBtn"@);
        lemma_try_btn_options_round_trip(v.try_btn);
    }
}

/// Every key of the record that the entries hold has a value of its kind;
/// a nested record is well-typed in turn. Other keys may hold anything.
#[verifier::opaque]
pub open spec fn redoc_try_it_out_options_well_typed(e: Entries) -> bool {
    &&& setting_fits(lookup(e, "redocVersion"@), Expected::Text)
    &&& setting_fits(lookup(e, "tryItOutEnabled"@), Expected::Flag)
    &&& setting_fits(lookup(e, "tryItBoxContainerId"@), Expected::Text)
    &&& setting_fits(lookup(e, "containerId"@), Expected::Text)
    &&& setting_fits(lookup(e, "operationBoxSelector"@), Expected::Text)
    &&& setting_fits(lookup(e, "selectedOperationClass"@), Expected::Text)
    &&& match lookup(e, "dependenciesVersions"@) {
        None => true,
        Some(Json::Object(inner)) => dependencies_versions_well_typed(inner),
        Some(_) => false,
    }
    &&& match lookup(e, "authBtn"@) {
        None => true,
        Some(Json::Object(inner)) => auth_btn_options_well_typed(inner),
        Some(_) => false,
    }
    &&& match lookup(e, "tryBtn"@) {
        None => true,
        Some(Json::Object(inner)) => try_btn_options_well_typed(inner),
        Some(_) => false,
    }
}

/// The record reads without error exactly when the entries are well-typed.
pub proof fn lemma_redoc_try_it_out_options_reads_iff_well_typed(e: Entries)
    ensures
        redoc_try_it_out_options_from(e) is Ok <==> redoc_try_it_out_options_well_typed(e),
{
    reveal(redoc_try_it_out_options_from);
    reveal(redoc_try_it_out_options_well_typed);
    if let Some(Json::Object(inner)) = lookup(e, "dependenciesVersions"@) {
        lemma_dependencies_versions_reads_iff_well_typed(inner);
    }
    lemma_dependencies_versions_empty();
    if let Some(Json::Object(inner)) = lookup(e, "authBtn"@) {
        lemma_auth_btn_options_reads_iff_well_typed(inner);
    }
    lemma_auth_btn_options_empty();
    if let Some(Json::Object(inner)) = lookup(e, "tryBtn"@) {
        lemma_try_btn_options_reads_iff_well_typed(inner);
    }
    lemma_try_btn_options_empty();
}

/// What entries can be read as when they hold no keys.
pub proof fn lemma_redoc_try_it_out_options_empty()
    ensures
        redoc_try_it_out_options_from(Seq::empty()) is Ok,
{
    reveal(lookup);
    reveal(redoc_try_it_out_options_from);
    lemma_dependencies_versions_empty();
    lemma_auth_btn_options_empty();
    lemma_try_btn_options_empty();
}

/// A field of the wrong kind fails the whole record: nothing is read in part.
pub proof fn lemma_redoc_try_it_out_options_wrong_field_fails(e: Entries)
    ensures
        (at("redocVersion"@, text_or(e, "redocVersion"@, "2.1.3"@)) is Err
            || at("tryItOutEnabled"@, flag_or(e, "tryItOutEnabled"@, true)) is Err
            || at("tryItBoxContainerId"@, text_or(e, "tryItBoxContainerId"@, "try-out-wrapper"@)) is Err
            || at("containerId"@, text_or(e, "containerId"@, "redoc-container"@)) is Err
            || at("operationBoxSelector"@, text_or(e, "operationBoxSelector"@, "[data-section-id]"@)) is Err
            || at("selectedOperationClass"@, text_or(e, "selectedOperationClass"@, "try"@)) is Err
            || nest_or(
        "dependenciesVersions"@,
        group_or(e, "dependenciesVersions"@),
        |g: Entries| dependencies_versions_from(g),
    ) is Err
            || nest_or(
        "authBtn"@,
        group_or(e, "authBtn"@),
        |g: Entries| auth_btn_options_from(g),
    ) is Err
            || nest_or(
        "tryBtn"@,
        group_or(e, "tryBtn"@),
        |g: Entries| try_btn_options_from(g),
    ) is Err)
            ==> redoc_try_it_out_options_from(e) is Err,
{
    reveal(redoc_try_it_out_options_from);
}

/// A failed read names a value of the entries that has the wrong kind.
pub proof fn lemma_redoc_try_it_out_options_mismatch(e: Entries)
    requires
        redoc_try_it_out_options_from(e) is Err,
    ensures
        names_mismatch(Json::Object(e), redoc_try_it_out_options_from(e)->Err_0),
{
    if at("redocVersion"@, text_or(e, "redocVersion"@, "2.1.3"@)) is Err {
        assert(redoc_try_it_out_options_from(e)
            == Err::<RedocTryItOutOptionsView, ConfigErrorView>(at("redocVersion"@, text_or(e, "redocVersion"@, "2.1.3"@))->Err_0)) by {
            reveal(redoc_try_it_out_options_from);
        }
        lemma_leaf_mismatch(e, "redocVersion"@, text_or(e, "redocVersion"@, "2.1.3"@)->Err_0);
    } else if at("tryItOutEnabled"@, flag_or(e, "tryItOutEnabled"@, true)) is Err {
        assert(redoc_try_it_out_options_from(e)
            == Err::<RedocTryItOutOptionsView, ConfigErrorView>(at("tryItOutEnabled"@, flag_or(e, "tryItOutEnabled"@, true))->Err_0)) by {
            reveal(redoc_try_it_out_options_from);
        }
        lemma_leaf_mismatch(e, "tryItOutEnabled"@, flag_or(e, "tryItOutEnabled"@, true)->Err_0);
    } else if at("tryItBoxContainerId"@, text_or(e, "tryItBoxContainerId"@, "try-out-wrapper"@)) is Err {
        assert(redoc_try_it_out_options_from(e)
            == Err::<RedocTryItOutOptionsView, ConfigErrorView>(at("tryItBoxContainerId"@, text_or(e, "tryItBoxContainerId"@, "try-out-wrapper"@))->Err_0)) by {
            reveal(redoc_try_it_out_options_from);
        }
        lemma_leaf_mismatch(e, "tryItBoxContainerId"@, text_or(e, "tryItBoxContainerId"@, "try-out-wrapper"@)->Err_0);
    } else if at("containerId"@, text_or(e, "containerId"@, "redoc-container"@)) is Err {
        assert(redoc_try_it_out_options_from(e)
            == Err::<RedocTryItOutOptionsView, ConfigErrorView>(at("containerId"@, text_or(e, "containerId"@, "redoc-container"@))->Err_0)) by {
            reveal(redoc_try_it_out_options_from);
        }
        lemma_leaf_mismatch(e, "containerId"@, text_or(e, "containerId"@, "redoc-container"@)->Err_0);
    } else if at("operationBoxSelector"@, text_or(e, "operationBoxSelector"@, "[data-section-id]"@)) is Err {
        assert(redoc_try_it_out_options_from(e)
            == Err::<RedocTryItOutOptionsView, ConfigErrorView>(at("operationBoxSelector"@, text_or(e, "operationBoxSelector"@, "[data-section-id]"@))->Err_0)) by {
            reveal(redoc_try_it_out_options_from);
        }
        lemma_leaf_mismatch(e, "operationBoxSelector"@, text_or(e, "operationBoxSelector"@, "[data-section-id]"@)->Err_0);
    } else if at("selectedOperationClass"@, text_or(e, "selectedOperationClass"@, "try"@)) is Err {
        assert(redoc_try_it_out_options_from(e)
            == Err::<RedocTryItOutOptionsView, ConfigErrorView>(at("selectedOperationClass"@, text_or(e, "selectedOperationClass"@, "try"@))->Err_0)) by {
            reveal(redoc_try_it_out_options_from);
        }
        lemma_leaf_mismatch(e, "selectedOperationClass"@, text_or(e, "selectedOperationClass"@, "try"@)->Err_0);
    } else if nest_or(
        "dependenciesVersions"@,
        group_or(e, "dependenciesVersions"@),
        |g: Entries| dependencies_versions_from(g),
    ) is Err {
        assert(redoc_try_it_out_options_from(e)
            == Err::<RedocTryItOutOptionsView, ConfigErrorView>(nest_or(
        "dependenciesVersions"@,
        group_or(e, "dependenciesVersions"@),
        |g: Entries| dependencies_versions_from(g),
    )->Err_0)) by {
            reveal(redoc_try_it_out_options_from);
        }
        if group_or(e, "dependenciesVersions"@) is Err {
            lemma_leaf_mismatch(e, "dependenciesVersions"@, group_or(e, "dependenciesVersions"@)->Err_0);
        } else {
            let inner = group_or(e, "dependenciesVersions"@)->Ok_0;
            lemma_dependencies_versions_empty();
            lemma_dependencies_versions_mismatch(inner);
            lemma_nested_mismatch(e, "dependenciesVersions"@, inner, dependencies_versions_from(inner)->Err_0);
        }
    } else {
        lemma_redoc_try_it_out_options_mismatch_after_7(e);
    }
}

proof fn lemma_redoc_try_it_out_options_mismatch_after_7(e: Entries)
    requires
        redoc_try_it_out_options_from(e) is Err,
        at("redocVersion"@, text_or(e, "redocVersion"@, "2.1.3"@)) is Ok,
        at("tryItOutEnabled"@, flag_or(e, "tryItOutEnabled"@, true)) is Ok,
        at("tryItBoxContainerId"@, text_or(e, "tryItBoxContainerId"@, "try-out-wrapper"@)) is Ok,
        at("containerId"@, text_or(e, "containerId"@, "redoc-container"@)) is Ok,
        at("operationBoxSelector"@, text_or(e, "operationBoxSelector"@, "[data-section-id]"@)) is Ok,
        at("selectedOperationClass"@, text_or(e, "selectedOperationClass"@, "try"@)) is Ok,
        nest_or(
        "dependenciesVersions"@,
        group_or(e, "dependenciesVersions"@),
        |g: Entries| dependencies_versions_from(g),
    ) is Ok,
    ensures
        names_mismatch(Json::Object(e), redoc_try_it_out_options_from(e)->Err_0),
{
    if nest_or(
        "authBtn"@,
        group_or(e, "authBtn"@),
        |g: Entries| auth_btn_options_from(g),
    ) is Err {
        assert(redoc_try_it_out_options_from(e)
            == Err::<RedocTryItOutOptionsView, ConfigErrorView>(nest_or(
        "authBtn"@,
        group_or(e, "authBtn"@),
        |g: Entries| auth_btn_options_from(g),
    )->Err_0)) by {
            reveal(redoc_try_it_out_options_from);
        }
        if group_or(e, "authBtn"@) is Err {
            lemma_leaf_mismatch(e, "authBtn"@, group_or(e, "authBtn"@)->Err_0);
        } else {
            let inner = group_or(e, "authBtn"@)->Ok_0;
            lemma_auth_btn_options_empty();
            lemma_auth_btn_options_mismatch(inner);
            lemma_nested_mismatch(e, "authBtn"@, inner, auth_btn_options_from(inner)->Err_0);
        }
    } else if nest_or(
        "tryBtn"@,
        group_or(e, "tryBtn"@),
        |g: Entries| try_btn_options_from(g),
    ) is Err {
        assert(redoc_try_it_out_options_from(e)
            == Err::<RedocTryItOutOptionsView, ConfigErrorView>(nest_or(
        "tryBtn"@,
        group_or(e, "tryBtn"@),
        |g: Entries| try_btn_options_from(g),
    )->Err_0)) by {
            reveal(redoc_try_it_out_options_from);
        }
        if group_or(e, "tryBtn"@) is Err {
            lemma_leaf_mismatch(e, "tryBtn"@, group_or(e, "tryBtn"@)->Err_0);
        } else {
            let inner = group_or(e, "tryBtn"@)->Ok_0;
            lemma_try_btn_options_empty();
            lemma_try_btn_options_mismatch(inner);
            lemma_nested_mismatch(e, "tryBtn"@, inner, try_btn_options_from(inner)->Err_0);
        }
    } else {
        assert(redoc_try_it_out_options_from(e) is Ok) by {
            reveal(redoc_try_it_out_options_from);
        }
    }
}

impl RedocTryItOutOptions {
    /// Reads the record from the entries of an object. Unknown keys are ignored.
    pub fn from_entries(entries: &Vec<(String, Value)>) -> (r: Result<RedocTryItOutOptions, ConfigError>)
        ensures
            match r {
                Ok(v) => redoc_try_it_out_options_from(entries_view(entries@)) == Ok::<RedocTryItOutOptionsView, ConfigErrorView>(v@),
                Err(e) => redoc_try_it_out_options_from(entries_view(entries@)) == Err::<RedocTryItOutOptionsView, ConfigErrorView>(e@),
            },
    {
        proof {
            reveal(redoc_try_it_out_options_from);
        }
        let redoc_version = match read_text_or(entries, "redocVersion", "2.1.3") {
            Ok(x) => x,
            Err(kind) => return Err(ConfigError::leaf("redocVersion", kind)),
        };
        let try_it_out_enabled = match read_flag_or(entries, "tryItOutEnabled", true) {
            Ok(x) => x,
            Err(kind) => return Err(ConfigError::leaf("tryItOutEnabled", kind)),
        };
        let try_it_box_container_id = match read_text_or(entries, "tryItBoxContainerId", "try-out-wrapper") {
            Ok(x) => x,
            Err(kind) => return Err(ConfigError::leaf("tryItBoxContainerId", kind)),
        };
        let container_id = match read_text_or(entries, "containerId", "redoc-container") {
            Ok(x) => x,
            Err(kind) => return Err(ConfigError::leaf("containerId", kind)),
        };
        let operation_box_selector = match read_text_or(entries, "operationBoxSelector", "[data-section-id]") {
            Ok(x) => x,
            Err(kind) => return Err(ConfigError::leaf("operationBoxSelector", kind)),
        };
        let selected_operation_class = match read_text_or(entries, "selectedOperationClass", "try") {
            Ok(x) => x,
            Err(kind) => return Err(ConfigError::leaf("selectedOperationClass", kind)),
        };
        let dependencies_versions = match read_group_or(entries, "dependenciesVersions") {
            Ok(Some(inner)) => match DependenciesVersions::from_entries(inner) {
                Ok(g) => g,
                Err(e) => return Err(e.within("dependenciesVersions")),
            },
            Ok(None) => DependenciesVersions::default(),
            Err(kind) => return Err(ConfigError::leaf("dependenciesVersions", kind)),
        };
        let auth_btn = match read_group_or(entries, "authBtn") {
            Ok(Some(inner)) => match AuthBtnOptions::from_entries(inner) {
                Ok(g) => g,
                Err(e) => return Err(e.within("authBtn")),
            },
            Ok(None) => AuthBtnOptions::default(),
            Err(kind) => return Err(ConfigError::leaf("authBtn", kind)),
        };
        let try_btn = match read_group_or(entries, "tryBtn") {
            Ok(Some(inner)) => match TryBtnOptions::from_entries(inner) {
                Ok(g) => g,
                Err(e) => return Err(e.within("tryBtn")),
            },
            Ok(None) => TryBtnOptions::default(),
            Err(kind) => return Err(ConfigError::leaf("tryBtn", kind)),
        };
        Ok(RedocTryItOutOptions { redoc_version, try_it_out_enabled, try_it_box_container_id, container_id, operation_box_selector, selected_operation_class, dependencies_versions, auth_btn, try_btn })
    }

    /// Writes the record as the entries of an object: each set field under its
    /// key, in field order.
    pub fn to_entries(&self) -> (r: Vec<(String, Value)>)
        ensures
            entries_view(r@) == redoc_try_it_out_options_wire(self@),
    {
        let keys: [&str; 9] = ["redocVersion", "tryItOutEnabled", "tryItBoxContainerId", "containerId", "operationBoxSelector", "selectedOperationClass", "dependenciesVersions", "authBtn", "tryBtn"];
        let values: Vec<Option<Value>> = vec![
            Some(Value::Text(self.redoc_version.clone())),
            Some(Value::Bool(self.try_it_out_enabled)),
            Some(Value::Text(self.try_it_box_container_id.clone())),
            Some(Value::Text(self.container_id.clone())),
            Some(Value::Text(self.operation_box_selector.clone())),
            Some(Value::Text(self.selected_operation_class.clone())),
            Some(object_value(self.dependencies_versions.to_entries())),
            Some(object_value(self.auth_btn.to_entries())),
            Some(object_value(self.try_btn.to_entries())),
        ];
        assert(keys@.map_values(|k: &str| k@) =~= redoc_try_it_out_options_keys());
        assert(opt_views(values@) =~= redoc_try_it_out_options_values(self@));
        entries_of(&keys, values)
    }
}

impl Default for RedocTryItOutOptions {
    /// What an empty object reads as.
    fn default() -> (r: RedocTryItOutOptions)
        ensures
            redoc_try_it_out_options_from(Seq::empty()) == Ok::<RedocTryItOutOptionsView, ConfigErrorView>(r@),
    {
        proof {
            reveal(lookup);
            reveal(redoc_try_it_out_options_from);
        }
        RedocTryItOutOptions {
            redoc_version: String::from_str("2.1.3"),
            try_it_out_enabled: true,
            try_it_box_container_id: String::from_str("try-out-wrapper"),
            container_id: String::from_str("redoc-container"),
            operation_box_selector: String::from_str("[data-section-id]"),
            selected_operation_class: String::from_str("try"),
            dependencies_versions: DependenciesVersions::default(),
            auth_btn: AuthBtnOptions::default(),
            try_btn: TryBtnOptions::default(),
        }
    }
}

/// Options of the renderer. An unset field is left out of the wire form, so the
/// renderer's own default applies.
#[derive(Debug, Clone, PartialEq)]
pub struct RedocOptions {
    /// Disable search indexing and the search box.
    pub disable_search: Option<bool>,
    /// Expand default server variables.
    pub expand_default_server_variables: Option<bool>,
    /// Expand responses by default.
    pub expand_responses: Option<bool>,
    /// Maximum render depth of payload samples.
    pub generated_payload_samples_max_depth: Option<u32>,
    /// Enum values shown before the rest are folded away.
    pub max_displayed_enum_values: Option<u32>,
    /// Hide the button that downloads the document.
    pub hide_download_button: Option<bool>,
    /// Hide protocol and host name in operation definitions.
    pub hide_hostname: Option<bool>,
    /// Hide the loading animation.
    pub hide_loading: Option<bool>,
    /// Hide patterns in schemas.
    pub hide_schema_pattern: Option<bool>,
    /// Hide the sample tab of requests with a single sample.
    pub hide_single_request_sample_tab: Option<bool>,
    /// Expand a schema's only field.
    pub expand_single_schema_field: Option<bool>,
    /// Default expand level of payload samples.
    pub json_sample_expand_level: Option<u32>,
    /// Hide schema titles next to types.
    pub hide_schema_titles: Option<bool>,
    /// Show only unique one-of types, without titles.
    pub simple_one_of_type_label: Option<bool>,
    /// Render the first screen first and the rest later.
    pub lazy_rendering: Option<bool>,
    /// Collapse an expanded menu entry when clicked again.
    pub menu_toggle: Option<bool>,
    /// Use the native scrollbar in the side menu.
    pub native_scrollbars: Option<bool>,
    /// Do not add an authentication section.
    pub no_auto_auth: Option<bool>,
    /// Show only required fields in request samples.
    pub only_required_in_samples: Option<bool>,
    /// Show path and verb in the middle panel.
    pub path_in_middle_panel: Option<bool>,
    /// List required properties first.
    pub required_props_first: Option<bool>,
    /// Vertical scroll offset.
    pub scroll_y_offset: Option<String>,
    /// Selector of the element whose bottom gives the scroll offset.
    pub selector: Option<String>,
    /// Vendor extensions to show.
    pub show_extensions: Option<Vec<String>>,
    /// Sort properties alphabetically.
    pub sort_props_alphabetically: Option<bool>,
    /// Position of the payload sample among the samples.
    pub payload_sample_idx: Option<u32>,
    /// Theme overrides.
    pub theme: Option<ThemeOptions>,
    /// Sanitise the document's HTML and Markdown.
    pub untrusted_spec: Option<bool>,
}

pub struct RedocOptionsView {
    pub disable_search: Option<bool>,
    pub expand_default_server_variables: Option<bool>,
    pub expand_responses: Option<bool>,
    pub generated_payload_samples_max_depth: Option<u32>,
    pub max_displayed_enum_values: Option<u32>,
    pub hide_download_button: Option<bool>,
    pub hide_hostname: Option<bool>,
    pub hide_loading: Option<bool>,
    pub hide_schema_pattern: Option<bool>,
    pub hide_single_request_sample_tab: Option<bool>,
    pub expand_single_schema_field: Option<bool>,
    pub json_sample_expand_level: Option<u32>,
    pub hide_schema_titles: Option<bool>,
    pub simple_one_of_type_label: Option<bool>,
    pub lazy_rendering: Option<bool>,
    pub menu_toggle: Option<bool>,
    pub native_scrollbars: Option<bool>,
    pub no_auto_auth: Option<bool>,
    pub only_required_in_samples: Option<bool>,
    pub path_in_middle_panel: Option<bool>,
    pub required_props_first: Option<bool>,
    pub scroll_y_offset: Option<Seq<char>>,
    pub selector: Option<Seq<char>>,
    pub show_extensions: Option<Seq<Seq<char>>>,
    pub sort_props_alphabetically: Option<bool>,
    pub payload_sample_idx: Option<u32>,
    pub theme: Option<ThemeOptionsView>,
    pub untrusted_spec: Option<bool>,
}

impl View for RedocOptions {
    type V = RedocOptionsView;

    open spec fn view(&self) -> RedocOptionsView {
        RedocOptionsView {
            disable_search: self.disable_search,
            expand_default_server_variables: self.expand_default_server_variables,
            expand_responses: self.expand_responses,
            generated_payload_samples_max_depth: self.generated_payload_samples_max_depth,
            max_displayed_enum_values: self.max_displayed_enum_values,
            hide_download_button: self.hide_download_button,
            hide_hostname: self.hide_hostname,
            hide_loading: self.hide_loading,
            hide_schema_pattern: self.hide_schema_pattern,
            hide_single_request_sample_tab: self.hide_single_request_sample_tab,
            expand_single_schema_field: self.expand_single_schema_field,
            json_sample_expand_level: self.json_sample_expand_level,
            hide_schema_titles: self.hide_schema_titles,
            simple_one_of_type_label: self.simple_one_of_type_label,
            lazy_rendering: self.lazy_rendering,
            menu_toggle: self.menu_toggle,
            native_scrollbars: self.native_scrollbars,
            no_auto_auth: self.no_auto_auth,
            only_required_in_samples: self.only_required_in_samples,
            path_in_middle_panel: self.path_in_middle_panel,
            required_props_first: self.required_props_first,
            scroll_y_offset: self.scroll_y_offset.deep_view(),
            selector: self.selector.deep_view(),
            show_extensions: self.show_extensions.deep_view(),
            sort_props_alphabetically: self.sort_props_alphabetically,
            payload_sample_idx: self.payload_sample_idx,
            theme: match self.theme {
                Some(g) => Some(g@),
                None => None,
            },
            untrusted_spec: self.untrusted_spec,
        }
    }
}

pub open spec fn redoc_options_keys() -> Seq<Seq<char>> {
    seq![
        "disableSearch"@,
        "expandDefaultServerVariables"@,
        "expandResponses"@,
        "generatedPayloadSamplesMaxDepth"@,
        "maxDisplayedEnumValues"@,
        "hideDownloadButton"@,
        "hideHostname"@,
        "hideLoading"@,
        "hideSchemaPattern"@,
        "hideSingleRequestSampleTab"@,
        "expandSingleSchemaField"@,
        "jsonSampleExpandLevel"@,
        "hideSchemaTitles"@,
        "simpleOneOfTypeLabel"@,
        "lazyRendering"@,
        "menuToggle"@,
        "nativeScrollbars"@,
        "noAutoAuth"@,
        "onlyRequiredInSamples"@,
        "pathInMiddlePanel"@,
        "requiredPropsFirst"@,
        "scrollYOffset"@,
        "selector"@,
        "showExtensions"@,
        "sortPropsAlphabetically"@,
        "payloadSampleIdx"@,
        "theme"@,
        "untrustedSpec"@,
    ]
}

/// The record that the entries of an object denote, or the first field, in
/// field order, that has the wrong kind.
#[verifier::opaque]
pub open spec fn redoc_options_from(e: Entries) -> Result<RedocOptionsView, ConfigErrorView> {
    let disable_search = at("disableSearch"@, flag_field(e, "disableSearch"@));
    let expand_default_server_variables = at("expandDefaultServerVariables"@, flag_field(e, "expandDefaultServerVariables"@));
    let expand_responses = at("expandResponses"@, flag_field(e, "expandResponses"@));
    let generated_payload_samples_max_depth = at("generatedPayloadSamplesMaxDepth"@, count_field(e, "generatedPayloadSamplesMaxDepth"@));
    let max_displayed_enum_values = at("maxDisplayedEnumValues"@, count_field(e, "maxDisplayedEnumValues"@));
    let hide_download_button = at("hideDownloadButton"@, flag_field(e, "hideDownloadButton"@));
    let hide_hostname = at("hideHostname"@, flag_field(e, "hideHostname"@));
    let hide_loading = at("hideLoading"@, flag_field(e, "hideLoading"@));
    let hide_schema_pattern = at("hideSchemaPattern"@, flag_field(e, "hideSchemaPattern"@));
    let hide_single_request_sample_tab = at("hideSingleRequestSampleTab"@, flag_field(e, "hideSingleRequestSampleTab"@));
    let expand_single_schema_field = at("expandSingleSchemaField"@, flag_field(e, "expandSingleSchemaField"@));
    let json_sample_expand_level = at("jsonSampleExpandLevel"@, count_field(e, "jsonSampleExpandLevel"@));
    let hide_schema_titles = at("hideSchemaTitles"@, flag_field(e, "hideSchemaTitles"@));
    let simple_one_of_type_label = at("simpleOneOfTypeLabel"@, flag_field(e, "simpleOneOfTypeLabel"@));
    let lazy_rendering = at("lazyRendering"@, flag_field(e, "lazyRendering"@));
    let menu_toggle = at("menuToggle"@, flag_field(e, "menuToggle"@));
    let native_scrollbars = at("nativeScrollbars"@, flag_field(e, "nativeScrollbars"@));
    let no_auto_auth = at("noAutoAuth"@, flag_field(e, "noAutoAuth"@));
    let only_required_in_samples = at("onlyRequiredInSamples"@, flag_field(e, "onlyRequiredInSamples"@));
    let path_in_middle_panel = at("pathInMiddlePanel"@, flag_field(e, "pathInMiddlePanel"@));
    let required_props_first = at("requiredPropsFirst"@, flag_field(e, "requiredPropsFirst"@));
    let scroll_y_offset = at("scrollYOffset"@, text_field(e, "scrollYOffset"@));
    let selector = at("selector"@, text_field(e, "selector"@));
    let show_extensions = at("showExtensions"@, list_field(e, "showExtensions"@));
    let sort_props_alphabetically = at("sortPropsAlphabetically"@, flag_field(e, "sortPropsAlphabetically"@));
    let payload_sample_idx = at("payloadSampleIdx"@, count_field(e, "payloadSampleIdx"@));
    let theme = nest(
        "theme"@,
        group_field(e, "theme"@),
        |g: Entries| theme_options_from(g),
    );
    let untrusted_spec = at("untrustedSpec"@, flag_field(e, "untrustedSpec"@));
    if disable_search is Err {
        Err(disable_search->Err_0)
    } else if expand_default_server_variables is Err {
        Err(expand_default_server_variables->Err_0)
    } else if expand_responses is Err {
        Err(expand_responses->Err_0)
    } else if generated_payload_samples_max_depth is Err {
        Err(generated_payload_samples_max_depth->Err_0)
    } else if max_displayed_enum_values is Err {
        Err(max_displayed_enum_values->Err_0)
    } else if hide_download_button is Err {
        Err(hide_download_button->Err_0)
    } else if hide_hostname is Err {
        Err(hide_hostname->Err_0)
    } else if hide_loading is Err {
        Err(hide_loading->Err_0)
    } else if hide_schema_pattern is Err {
        Err(hide_schema_pattern->Err_0)
    } else if hide_single_request_sample_tab is Err {
        Err(hide_single_request_sample_tab->Err_0)
    } else if expand_single_schema_field is Err {
        Err(expand_single_schema_field->Err_0)
    } else if json_sample_expand_level is Err {
        Err(json_sample_expand_level->Err_0)
    } else if hide_schema_titles is Err {
        Err(hide_schema_titles->Err_0)
    } else if simple_one_of_type_label is Err {
        Err(simple_one_of_type_label->Err_0)
    } else if lazy_rendering is Err {
        Err(lazy_rendering->Err_0)
    } else if menu_toggle is Err {
        Err(menu_toggle->Err_0)
    } else if native_scrollbars is Err {
        Err(native_scrollbars->Err_0)
    } else if no_auto_auth is Err {
        Err(no_auto_auth->Err_0)
    } else if only_required_in_samples is Err {
        Err(only_required_in_samples->Err_0)
    } else if path_in_middle_panel is Err {
        Err(path_in_middle_panel->Err_0)
    } else if required_props_first is Err {
        Err(required_props_first->Err_0)
    } else if scroll_y_offset is Err {
        Err(scroll_y_offset->Err_0)
    } else if selector is Err {
        Err(selector->Err_0)
    } else if show_extensions is Err {
        Err(show_extensions->Err_0)
    } else if sort_props_alphabetically is Err {
        Err(sort_props_alphabetically->Err_0)
    } else if payload_sample_idx is Err {
        Err(payload_sample_idx->Err_0)
    } else if theme is Err {
        Err(theme->Err_0)
    } else if untrusted_spec is Err {
        Err(untrusted_spec->Err_0)
    } else {
        Ok(
            RedocOptionsView {
                disable_search: disable_search->Ok_0,
                expand_default_server_variables: expand_default_server_variables->Ok_0,
                expand_responses: expand_responses->Ok_0,
                generated_payload_samples_max_depth: generated_payload_samples_max_depth->Ok_0,
                max_displayed_enum_values: max_displayed_enum_values->Ok_0,
                hide_download_button: hide_download_button->Ok_0,
                hide_hostname: hide_hostname->Ok_0,
                hide_loading: hide_loading->Ok_0,
                hide_schema_pattern: hide_schema_pattern->Ok_0,
                hide_single_request_sample_tab: hide_single_request_sample_tab->Ok_0,
                expand_single_schema_field: expand_single_schema_field->Ok_0,
                json_sample_expand_level: json_sample_expand_level->Ok_0,
                hide_schema_titles: hide_schema_titles->Ok_0,
                simple_one_of_type_label: simple_one_of_type_label->Ok_0,
                lazy_rendering: lazy_rendering->Ok_0,
                menu_toggle: menu_toggle->Ok_0,
                native_scrollbars: native_scrollbars->Ok_0,
                no_auto_auth: no_auto_auth->Ok_0,
                only_required_in_samples: only_required_in_samples->Ok_0,
                path_in_middle_panel: path_in_middle_panel->Ok_0,
                required_props_first: required_props_first->Ok_0,
                scroll_y_offset: scroll_y_offset->Ok_0,
                selector: selector->Ok_0,
                show_extensions: show_extensions->Ok_0,
                sort_props_alphabetically: sort_props_alphabetically->Ok_0,
                payload_sample_idx: payload_sample_idx->Ok_0,
                theme: theme->Ok_0,
                untrusted_spec: untrusted_spec->Ok_0,
            },
        )
    }
}

/// The value of each field in wire form, in field order; `None` for an unset
/// field.
pub open spec fn redoc_options_values(v: RedocOptionsView) -> Seq<Option<Json>> {
    seq![
        flag_json(v.disable_search),
        flag_json(v.expand_default_server_variables),
        flag_json(v.expand_responses),
        count_json(v.generated_payload_samples_max_depth),
        count_json(v.max_displayed_enum_values),
        flag_json(v.hide_download_button),
        flag_json(v.hide_hostname),
        flag_json(v.hide_loading),
        flag_json(v.hide_schema_pattern),
        flag_json(v.hide_single_request_sample_tab),
        flag_json(v.expand_single_schema_field),
        count_json(v.json_sample_expand_level),
        flag_json(v.hide_schema_titles),
        flag_json(v.simple_one_of_type_label),
        flag_json(v.lazy_rendering),
        flag_json(v.menu_toggle),
        flag_json(v.native_scrollbars),
        flag_json(v.no_auto_auth),
        flag_json(v.only_required_in_samples),
        flag_json(v.path_in_middle_panel),
        flag_json(v.required_props_first),
        text_json(v.scroll_y_offset),
        text_json(v.selector),
        list_json(v.show_extensions),
        flag_json(v.sort_props_alphabetically),
        count_json(v.payload_sample_idx),
        match v.theme {
            Some(g) => Some(Json::Object(theme_options_wire(g))),
            None => None,
        },
        flag_json(v.untrusted_spec),
    ]
}

/// The entries that the record is written as: its set fields, in field order.
pub open spec fn redoc_options_wire(v: RedocOptionsView) -> Entries {
    fields_wire(redoc_options_keys(), redoc_options_values(v))
}

pub proof fn lemma_redoc_options_keys()
    ensures
        distinct_keys(redoc_options_keys()),
{
    reveal_strlit("disableSearch");
    reveal_strlit("expandDefaultServerVariables");
    reveal_strlit("expandResponses");
    reveal_strlit("generatedPayloadSamplesMaxDepth");
    reveal_strlit("maxDisplayedEnumValues");
    reveal_strlit("hideDownloadButton");
    reveal_strlit("hideHostname");
    reveal_strlit("hideLoading");
    reveal_strlit("hideSchemaPattern");
    reveal_strlit("hideSingleRequestSampleTab");
    reveal_strlit("expandSingleSchemaField");
    reveal_strlit("jsonSampleExpandLevel");
    reveal_strlit("hideSchemaTitles");
    reveal_strlit("simpleOneOfTypeLabel");
    reveal_strlit("lazyRendering");
    reveal_strlit("menuToggle");
    reveal_strlit("nativeScrollbars");
    reveal_strlit("noAutoAuth");
    reveal_strlit("onlyRequiredInSamples");
    reveal_strlit("pathInMiddlePanel");
    reveal_strlit("requiredPropsFirst");
    reveal_strlit("scrollYOffset");
    reveal_strlit("selector");
    reveal_strlit("showExtensions");
    reveal_strlit("sortPropsAlphabetically");
    reveal_strlit("payloadSampleIdx");
    reveal_strlit("theme");
    reveal_strlit("untrustedSpec");
    assert("disableSearch"@.len() == 13);
    assert("expandDefaultServerVariables"@.len() == 28);
    assert("expandResponses"@.len() == 15);
    assert("generatedPayloadSamplesMaxDepth"@.len() == 31);
    assert("maxDisplayedEnumValues"@.len() == 22);
    assert("hideDownloadButton"@.len() == 18);
    assert("hideHostname"@.len() == 12);
    assert("hideLoading"@.len() == 11);
    assert("hideSchemaPattern"@.len() == 17);
    assert("hideSingleRequestSampleTab"@.len() == 26);
    assert("expandSingleSchemaField"@.len() == 23);
    assert("jsonSampleExpandLevel"@.len() == 21);
    assert("hideSchemaTitles"@.len() == 16);
    assert("simpleOneOfTypeLabel"@.len() == 20);
    assert("lazyRendering"@.len() == 13);
    assert("menuToggle"@.len() == 10);
    assert("nativeScrollbars"@.len() == 16);
    assert("noAutoAuth"@.len() == 10);
    assert("onlyRequiredInSamples"@.len() == 21);
    assert("pathInMiddlePanel"@.len() == 17);
    assert("requiredPropsFirst"@.len() == 18);
    assert("scrollYOffset"@.len() == 13);
    assert("selector"@.len() == 8);
    assert("showExtensions"@.len() == 14);
    assert("sortPropsAlphabetically"@.len() == 23);
    assert("payloadSampleIdx"@.len() == 16);
    assert("theme"@.len() == 5);
    assert("untrustedSpec"@.len() == 13);
    assert("disableSearch"@[0] != "lazyRendering"@[0]);
    assert("disableSearch"@[0] != "scrollYOffset"@[0]);
    assert("disableSearch"@[0] != "untrustedSpec"@[0]);
    assert("hideDownloadButton"@[0] != "requiredPropsFirst"@[0]);
    assert("hideSchemaPattern"@[0] != "pathInMiddlePanel"@[0]);
    assert("expandSingleSchemaField"@[0] != "sortPropsAlphabetically"@[0]);
    assert("jsonSampleExpandLevel"@[0] != "onlyRequiredInSamples"@[0]);
    assert("hideSchemaTitles"@[0] != "nativeScrollbars"@[0]);
    assert("hideSchemaTitles"@[0] != "payloadSampleIdx"@[0]);
    assert("lazyRendering"@[0] != "scrollYOffset"@[0]);
    assert("lazyRendering"@[0] != "untrustedSpec"@[0]);
    assert("menuToggle"@[0] != "noAutoAuth"@[0]);
    assert("nativeScrollbars"@[0] != "payloadSampleIdx"@[0]);
    assert("scrollYOffset"@[0] != "untrustedSpec"@[0]);
}

/// Entries under other keys do not change what the record reads as.
#[verifier::rlimit(100)]
pub proof fn lemma_redoc_options_own_keys(a: Entries, b: Entries)
    requires
        forall|i: int|
            0 <= i < redoc_options_keys().len() ==> lookup(a, #[trigger] redoc_options_keys()[i]) == lookup(
                b,
                redoc_options_keys()[i],
            ),
    ensures
        redoc_options_from(a) == redoc_options_from(b),
{
    reveal(redoc_options_from);
    assert(lookup(a, redoc_options_keys()[0]) == lookup(b, redoc_options_keys()[0]));
    assert(at("disableSearch"@, flag_field(a, "disableSearch"@)) == at("disableSearch"@, flag_field(b, "disableSearch"@)));
    assert(lookup(a, redoc_options_keys()[1]) == lookup(b, redoc_options_keys()[1]));
    assert(at("expandDefaultServerVariables"@, flag_field(a, "expandDefaultServerVariables"@)) == at("expandDefaultServerVariables"@, flag_field(b, "expandDefaultServerVariables"@)));
    assert(lookup(a, redoc_options_keys()[2]) == lookup(b, redoc_options_keys()[2]));
    assert(at("expandResponses"@, flag_field(a, "expandResponses"@)) == at("expandResponses"@, flag_field(b, "expandResponses"@)));
    assert(lookup(a, redoc_options_keys()[3]) == lookup(b, redoc_options_keys()[3]));
    assert(at("generatedPayloadSamplesMaxDepth"@, count_field(a, "generatedPayloadSamplesMaxDepth"@)) == at("generatedPayloadSamplesMaxDepth"@, count_field(b, "generatedPayloadSamplesMaxDepth"@)));
    assert(lookup(a, redoc_options_keys()[4]) == lookup(b, redoc_options_keys()[4]));
    assert(at("maxDisplayedEnumValues"@, count_field(a, "maxDisplayedEnumValues"@)) == at("maxDisplayedEnumValues"@, count_field(b, "maxDisplayedEnumValues"@)));
    assert(lookup(a, redoc_options_keys()[5]) == lookup(b, redoc_options_keys()[5]));
    assert(at("hideDownloadButton"@, flag_field(a, "hideDownloadButton"@)) == at("hideDownloadButton"@, flag_field(b, "hideDownloadButton"@)));
    assert(lookup(a, redoc_options_keys()[6]) == lookup(b, redoc_options_keys()[6]));
    assert(at("hideHostname"@, flag_field(a, "hideHostname"@)) == at("hideHostname"@, flag_field(b, "hideHostname"@)));
    assert(lookup(a, redoc_options_keys()[7]) == lookup(b, redoc_options_keys()[7]));
    assert(at("hideLoading"@, flag_field(a, "hideLoading"@)) == at("hideLoading"@, flag_field(b, "hideLoading"@)));
    assert(lookup(a, redoc_options_keys()[8]) == lookup(b, redoc_options_keys()[8]));
    assert(at("hideSchemaPattern"@, flag_field(a, "hideSchemaPattern"@)) == at("hideSchemaPattern"@, flag_field(b, "hideSchemaPattern"@)));
    assert(lookup(a, redoc_options_keys()[9]) == lookup(b, redoc_options_keys()[9]));
    assert(at("hideSingleRequestSampleTab"@, flag_field(a, "hideSingleRequestSampleTab"@)) == at("hideSingleRequestSampleTab"@, flag_field(b, "hideSingleRequestSampleTab"@)));
    assert(lookup(a, redoc_options_keys()[10]) == lookup(b, redoc_options_keys()[10]));
    assert(at("expandSingleSchemaField"@, flag_field(a, "expandSingleSchemaField"@)) == at("expandSingleSchemaField"@, flag_field(b, "expandSingleSchemaField"@)));
    assert(lookup(a, redoc_options_keys()[11]) == lookup(b, redoc_options_keys()[11]));
    assert(at("jsonSampleExpandLevel"@, count_field(a, "jsonSampleExpandLevel"@)) == at("jsonSampleExpandLevel"@, count_field(b, "jsonSampleExpandLevel"@)));
    assert(lookup(a, redoc_options_keys()[12]) == lookup(b, redoc_options_keys()[12]));
    assert(at("hideSchemaTitles"@, flag_field(a, "hideSchemaTitles"@)) == at("hideSchemaTitles"@, flag_field(b, "hideSchemaTitles"@)));
    assert(lookup(a, redoc_options_keys()[13]) == lookup(b, redoc_options_keys()[13]));
    assert(at("simpleOneOfTypeLabel"@, flag_field(a, "simpleOneOfTypeLabel"@)) == at("simpleOneOfTypeLabel"@, flag_field(b, "simpleOneOfTypeLabel"@)));
    assert(lookup(a, redoc_options_keys()[14]) == lookup(b, redoc_options_keys()[14]));
    assert(at("lazyRendering"@, flag_field(a, "lazyRendering"@)) == at("lazyRendering"@, flag_field(b, "lazyRendering"@)));
    assert(lookup(a, redoc_options_keys()[15]) == lookup(b, redoc_options_keys()[15]));
    assert(at("menuToggle"@, flag_field(a, "menuToggle"@)) == at("menuToggle"@, flag_field(b, "menuToggle"@)));
    assert(lookup(a, redoc_options_keys()[16]) == lookup(b, redoc_options_keys()[16]));
    assert(at("nativeScrollbars"@, flag_field(a, "nativeScrollbars"@)) == at("nativeScrollbars"@, flag_field(b, "nativeScrollbars"@)));
    assert(lookup(a, redoc_options_keys()[17]) == lookup(b, redoc_options_keys()[17]));
    assert(at("noAutoAuth"@, flag_field(a, "noAutoAuth"@)) == at("noAutoAuth"@, flag_field(b, "noAutoAuth"@)));
    assert(lookup(a, redoc_options_keys()[18]) == lookup(b, redoc_options_keys()[18]));
    assert(at("onlyRequiredInSamples"@, flag_field(a, "onlyRequiredInSamples"@)) == at("onlyRequiredInSamples"@, flag_field(b, "onlyRequiredInSamples"@)));
    assert(lookup(a, redoc_options_keys()[19]) == lookup(b, redoc_options_keys()[19]));
    assert(at("pathInMiddlePanel"@, flag_field(a, "pathInMiddlePanel"@)) == at("pathInMiddlePanel"@, flag_field(b, "pathInMiddlePanel"@)));
    assert(lookup(a, redoc_options_keys()[20]) == lookup(b, redoc_options_keys()[20]));
    assert(at("requiredPropsFirst"@, flag_field(a, "requiredPropsFirst"@)) == at("requiredPropsFirst"@, flag_field(b, "requiredPropsFirst"@)));
    assert(lookup(a, redoc_options_keys()[21]) == lookup(b, redoc_options_keys()[21]));
    assert(at("scrollYOffset"@, text_field(a, "scrollYOffset"@)) == at("scrollYOffset"@, text_field(b, "scrollYOffset"@)));
    assert(lookup(a, redoc_options_keys()[22]) == lookup(b, redoc_options_keys()[22]));
    assert(at("selector"@, text_field(a, "selector"@)) == at("selector"@, text_field(b, "selector"@)));
    assert(lookup(a, redoc_options_keys()[23]) == lookup(b, redoc_options_keys()[23]));
    assert(at("showExtensions"@, list_field(a, "showExtensions"@)) == at("showExtensions"@, list_field(b, "showExtensions"@)));
    assert(lookup(a, redoc_options_keys()[24]) == lookup(b, redoc_options_keys()[24]));
    assert(at("sortPropsAlphabetically"@, flag_field(a, "sortPropsAlphabetically"@)) == at("sortPropsAlphabetically"@, flag_field(b, "sortPropsAlphabetically"@)));
    assert(lookup(a, redoc_options_keys()[25]) == lookup(b, redoc_options_keys()[25]));
    assert(at("payloadSampleIdx"@, count_field(a, "payloadSampleIdx"@)) == at("payloadSampleIdx"@, count_field(b, "payloadSampleIdx"@)));
    assert(lookup(a, redoc_options_keys()[26]) == lookup(b, redoc_options_keys()[26]));
    assert(nest(
        "theme"@,
        group_field(a, "theme"@),
        |g: Entries| theme_options_from(g),
    ) == nest(
        "theme"@,
        group_field(b, "theme"@),
        |g: Entries| theme_options_from(g),
    ));
    assert(lookup(a, redoc_options_keys()[27]) == lookup(b, redoc_options_keys()[27]));
    assert(at("untrustedSpec"@, flag_field(a, "untrustedSpec"@)) == at("untrustedSpec"@, flag_field(b, "untrustedSpec"@)));
}

/// A record written as entries reads back as itself.
#[verifier::rlimit(100)]
pub proof fn lemma_redoc_options_round_trip(v: RedocOptionsView)
    ensures
        redoc_options_from(redoc_options_wire(v))
            == Ok::<RedocOptionsView, ConfigErrorView>(v),
{
    reveal(redoc_options_from);
    let e = redoc_options_wire(v);
    let keys = redoc_options_keys();
    let values = redoc_options_values(v);
    lemma_redoc_options_keys();
    assert(at("disableSearch"@, flag_field(e, "disableSearch"@))
        == Ok::<Option<bool>, ConfigErrorView>(v.disable_search)) by {
        lemma_lookup_fields_wire(keys, values, 0);
        assert(keys[0] == "disableSearch"@);
    }
    assert(at("expandDefaultServerVariables"@, flag_field(e, "expandDefaultServerVariables"@))
        == Ok::<Option<bool>, ConfigErrorView>(v.expand_default_server_variables)) by {
        lemma_lookup_fields_wire(keys, values, 1);
        assert(keys[1] == "expandDefaultServerVariables"@);
    }
    assert(at("expandResponses"@, flag_field(e, "expandResponses"@))
        == Ok::<Option<bool>, ConfigErrorView>(v.expand_responses)) by {
        lemma_lookup_fields_wire(keys, values, 2);
        assert(keys[2] == "expandResponses"@);
    }
    assert(at("generatedPayloadSamplesMaxDepth"@, count_field(e, "generatedPayloadSamplesMaxDepth"@))
        == Ok::<Option<u32>, ConfigErrorView>(v.generated_payload_samples_max_depth)) by {
        lemma_lookup_fields_wire(keys, values, 3);
        assert(keys[3] == "generatedPayloadSamplesMaxDepth"@);
        lemma_count_round_trip(e, keys[3], v.generated_payload_samples_max_depth);
    }
    assert(at("maxDisplayedEnumValues"@, count_field(e, "maxDisplayedEnumValues"@))
        == Ok::<Option<u32>, ConfigErrorView>(v.max_displayed_enum_values)) by {
        lemma_lookup_fields_wire(keys, values, 4);
        assert(keys[4] == "maxDisplayedEnumValues"@);
        lemma_count_round_trip(e, keys[4], v.max_displayed_enum_values);
    }
    assert(at("hideDownloadButton"@, flag_field(e, "hideDownloadButton"@))
        == Ok::<Option<bool>, ConfigErrorView>(v.hide_download_button)) by {
        lemma_lookup_fields_wire(keys, values, 5);
        assert(keys[5] == "hideDownloadButton"@);
    }
    assert(at("hideHostname"@, flag_field(e, "hideHostname"@))
        == Ok::<Option<bool>, ConfigErrorView>(v.hide_hostname)) by {
        lemma_lookup_fields_wire(keys, values, 6);
        assert(keys[6] == "hideHostname"@);
    }
    assert(at("hideLoading"@, flag_field(e, "hideLoading"@))
        == Ok::<Option<bool>, ConfigErrorView>(v.hide_loading)) by {
        lemma_lookup_fields_wire(keys, values, 7);
        assert(keys[7] == "hideLoading"@);
    }
    assert(at("hideSchemaPattern"@, flag_field(e, "hideSchemaPattern"@))
        == Ok::<Option<bool>, ConfigErrorView>(v.hide_schema_pattern)) by {
        lemma_lookup_fields_wire(keys, values, 8);
        assert(keys[8] == "hideSchemaPattern"@);
    }
    assert(at("hideSingleRequestSampleTab"@, flag_field(e, "hideSingleRequestSampleTab"@))
        == Ok::<Option<bool>, ConfigErrorView>(v.hide_single_request_sample_tab)) by {
        lemma_lookup_fields_wire(keys, values, 9);
        assert(keys[9] == "hideSingleRequestSampleTab"@);
    }
    assert(at("expandSingleSchemaField"@, flag_field(e, "expandSingleSchemaField"@))
        == Ok::<Option<bool>, ConfigErrorView>(v.expand_single_schema_field)) by {
        lemma_lookup_fields_wire(keys, values, 10);
        assert(keys[10] == "expandSingleSchemaField"@);
    }
    assert(at("jsonSampleExpandLevel"@, count_field(e, "jsonSampleExpandLevel"@))
        == Ok::<Option<u32>, ConfigErrorView>(v.json_sample_expand_level)) by {
        lemma_lookup_fields_wire(keys, values, 11);
        assert(keys[11] == "jsonSampleExpandLevel"@);
        lemma_count_round_trip(e, keys[11], v.json_sample_expand_level);
    }
    assert(at("hideSchemaTitles"@, flag_field(e, "hideSchemaTitles"@))
        == Ok::<Option<bool>, ConfigErrorView>(v.hide_schema_titles)) by {
        lemma_lookup_fields_wire(keys, values, 12);
        assert(keys[12] == "hideSchemaTitles"@);
    }
    assert(at("simpleOneOfTypeLabel"@, flag_field(e, "simpleOneOfTypeLabel"@))
        == Ok::<Option<bool>, ConfigErrorView>(v.simple_one_of_type_label)) by {
        lemma_lookup_fields_wire(keys, values, 13);
        assert(keys[13] == "simpleOneOfTypeLabel"@);
    }
    assert(at("lazyRendering"@, flag_field(e, "lazyRendering"@))
        == Ok::<Option<bool>, ConfigErrorView>(v.lazy_rendering)) by {
        lemma_lookup_fields_wire(keys, values, 14);
        assert(keys[14] == "lazyRendering"@);
    }
    assert(at("menuToggle"@, flag_field(e, "menuToggle"@))
        == Ok::<Option<bool>, ConfigErrorView>(v.menu_toggle)) by {
        lemma_lookup_fields_wire(keys, values, 15);
        assert(keys[15] == "menuToggle"@);
    }
    assert(at("nativeScrollbars"@, flag_field(e, "nativeScrollbars"@))
        == Ok::<Option<bool>, ConfigErrorView>(v.native_scrollbars)) by {
        lemma_lookup_fields_wire(keys, values, 16);
        assert(keys[16] == "nativeScrollbars"@);
    }
    assert(at("noAutoAuth"@, flag_field(e, "noAutoAuth"@))
        == Ok::<Option<bool>, ConfigErrorView>(v.no_auto_auth)) by {
        lemma_lookup_fields_wire(keys, values, 17);
        assert(keys[17] == "noAutoAuth"@);
    }
    assert(at("onlyRequiredInSamples"@, flag_field(e, "onlyRequiredInSamples"@))
        == Ok::<Option<bool>, ConfigErrorView>(v.only_required_in_samples)) by {
        lemma_lookup_fields_wire(keys, values, 18);
        assert(keys[18] == "onlyRequiredInSamples"@);
    }
    assert(at("pathInMiddlePanel"@, flag_field(e, "pathInMiddlePanel"@))
        == Ok::<Option<bool>, ConfigErrorView>(v.path_in_middle_panel)) by {
        lemma_lookup_fields_wire(keys, values, 19);
        assert(keys[19] == "pathInMiddlePanel"@);
    }
    assert(at("requiredPropsFirst"@, flag_field(e, "requiredPropsFirst"@))
        == Ok::<Option<bool>, ConfigErrorView>(v.required_props_first)) by {
        lemma_lookup_fields_wire(keys, values, 20);
        assert(keys[20] == "requiredPropsFirst"@);
    }
    assert(at("scrollYOffset"@, text_field(e, "scrollYOffset"@))
        == Ok::<Option<Seq<char>>, ConfigErrorView>(v.scroll_y_offset)) by {
        lemma_lookup_fields_wire(keys, values, 21);
        assert(keys[21] == "scrollYOffset"@);
    }
    assert(at("selector"@, text_field(e, "selector"@))
        == Ok::<Option<Seq<char>>, ConfigErrorView>(v.selector)) by {
        lemma_lookup_fields_wire(keys, values, 22);
        assert(keys[22] == "selector"@);
    }
    assert(at("showExtensions"@, list_field(e, "showExtensions"@))
        == Ok::<Option<Seq<Seq<char>>>, ConfigErrorView>(v.show_extensions)) by {
        lemma_lookup_fields_wire(keys, values, 23);
        assert(keys[23] == "showExtensions"@);
        lemma_list_round_trip(e, keys[23], v.show_extensions);
    }
    assert(at("sortPropsAlphabetically"@, flag_field(e, "sortPropsAlphabetically"@))
        == Ok::<Option<bool>, ConfigErrorView>(v.sort_props_alphabetically)) by {
        lemma_lookup_fields_wire(keys, values, 24);
        assert(keys[24] == "sortPropsAlphabetically"@);
    }
    assert(at("payloadSampleIdx"@, count_field(e, "payloadSampleIdx"@))
        == Ok::<Option<u32>, ConfigErrorView>(v.payload_sample_idx)) by {
        lemma_lookup_fields_wire(keys, values, 25);
        assert(keys[25] == "payloadSampleIdx"@);
        lemma_count_round_trip(e, keys[25], v.payload_sample_idx);
    }
    assert(nest(
        "theme"@,
        group_field(e, "theme"@),
        |g: Entries| theme_options_from(g),
    )
        == Ok::<Option<ThemeOptionsView>, ConfigErrorView>(v.theme)) by {
        lemma_lookup_fields_wire(keys, values, 26);
        assert(keys[26] == "theme"@);
        if let Some(g) = v.theme {
            lemma_theme_options_round_trip(g);
        }
    }
    assert(at("untrustedSpec"@, flag_field(e, "untrustedSpec"@))
        == Ok::<Option<bool>, ConfigErrorView>(v.untrusted_spec)) by {
        lemma_lookup_fields_wire(keys, values, 27);
        assert(keys[27] == "untrustedSpec"@);
    }
}

/// Every key of the record that the entries hold has a value of its kind;
/// a nested record is well-typed in turn. Other keys may hold anything.
#[verifier::opaque]
pub open spec fn redoc_options_well_typed(e: Entries) -> bool {
    &&& optional_fits(lookup(e, "disableSearch"@), Expected::Flag)
    &&& optional_fits(lookup(e, "expandDefaultServerVariables"@), Expected::Flag)
    &&& optional_fits(lookup(e, "expandResponses"@), Expected::Flag)
    &&& optional_fits(lookup(e, "generatedPayloadSamplesMaxDepth"@), Expected::Count)
    &&& optional_fits(lookup(e, "maxDisplayedEnumValues"@), Expected::Count)
    &&& optional_fits(lookup(e, "hideDownloadButton"@), Expected::Flag)
    &&& optional_fits(lookup(e, "hideHostname"@), Expected::Flag)
    &&& optional_fits(lookup(e, "hideLoading"@), Expected::Flag)
    &&& optional_fits(lookup(e, "hideSchemaPattern"@), Expected::Flag)
    &&& optional_fits(lookup(e, "hideSingleRequestSampleTab"@), Expected::Flag)
    &&& optional_fits(lookup(e, "expandSingleSchemaField"@), Expected::Flag)
    &&& optional_fits(lookup(e, "jsonSampleExpandLevel"@), Expected::Count)
    &&& optional_fits(lookup(e, "hideSchemaTitles"@), Expected::Flag)
    &&& optional_fits(lookup(e, "simpleOneOfTypeLabel"@), Expected::Flag)
    &&& optional_fits(lookup(e, "lazyRendering"@), Expected::Flag)
    &&& optional_fits(lookup(e, "menuToggle"@), Expected::Flag)
    &&& optional_fits(lookup(e, "nativeScrollbars"@), Expected::Flag)
    &&& optional_fits(lookup(e, "noAutoAuth"@), Expected::Flag)
    &&& optional_fits(lookup(e, "onlyRequiredInSamples"@), Expected::Flag)
    &&& optional_fits(lookup(e, "pathInMiddlePanel"@), Expected::Flag)
    &&& optional_fits(lookup(e, "requiredPropsFirst"@), Expected::Flag)
    &&& optional_fits(lookup(e, "scrollYOffset"@), Expected::Text)
    &&& optional_fits(lookup(e, "selector"@), Expected::Text)
    &&& optional_fits(lookup(e, "showExtensions"@), Expected::TextList)
    &&& optional_fits(lookup(e, "sortPropsAlphabetically"@), Expected::Flag)
    &&& optional_fits(lookup(e, "payloadSampleIdx"@), Expected::Count)
    &&& match lookup(e, "theme"@) {
        None => true,
        Some(Json::Null) => true,
        Some(Json::Object(inner)) => theme_options_well_typed(inner),
        Some(_) => false,
    }
    &&& optional_fits(lookup(e, "untrustedSpec"@), Expected::Flag)
}

/// The record reads without error exactly when the entries are well-typed.
#[verifier::rlimit(100)]
pub proof fn lemma_redoc_options_reads_iff_well_typed(e: Entries)
    ensures
        redoc_options_from(e) is Ok <==> redoc_options_well_typed(e),
{
    reveal(redoc_options_from);
    reveal(redoc_options_well_typed);
    if let Some(Json::Object(inner)) = lookup(e, "theme"@) {
        lemma_theme_options_reads_iff_well_typed(inner);
    }
}

/// What entries can be read as when they hold no keys.
pub proof fn lemma_redoc_options_empty()
    ensures
        redoc_options_from(Seq::empty()) is Ok,
{
    reveal(lookup);
    reveal(redoc_options_from);
}

/// A field of the wrong kind fails the whole record: nothing is read in part.
#[verifier::rlimit(100)]
pub proof fn lemma_redoc_options_wrong_field_fails(e: Entries)
    ensures
        (at("disableSearch"@, flag_field(e, "disableSearch"@)) is Err
            || at("expandDefaultServerVariables"@, flag_field(e, "expandDefaultServerVariables"@)) is Err
            || at("expandResponses"@, flag_field(e, "expandResponses"@)) is Err
            || at("generatedPayloadSamplesMaxDepth"@, count_field(e, "generatedPayloadSamplesMaxDepth"@)) is Err
            || at("maxDisplayedEnumValues"@, count_field(e, "maxDisplayedEnumValues"@)) is Err
            || at("hideDownloadButton"@, flag_field(e, "hideDownloadButton"@)) is Err
            || at("hideHostname"@, flag_field(e, "hideHostname"@)) is Err
            || at("hideLoading"@, flag_field(e, "hideLoading"@)) is Err
            || at("hideSchemaPattern"@, flag_field(e, "hideSchemaPattern"@)) is Err
            || at("hideSingleRequestSampleTab"@, flag_field(e, "hideSingleRequestSampleTab"@)) is Err
            || at("expandSingleSchemaField"@, flag_field(e, "expandSingleSchemaField"@)) is Err
            || at("jsonSampleExpandLevel"@, count_field(e, "jsonSampleExpandLevel"@)) is Err
            || at("hideSchemaTitles"@, flag_field(e, "hideSchemaTitles"@)) is Err
            || at("simpleOneOfTypeLabel"@, flag_field(e, "simpleOneOfTypeLabel"@)) is Err
            || at("lazyRendering"@, flag_field(e, "lazyRendering"@)) is Err
            || at("menuToggle"@, flag_field(e, "menuToggle"@)) is Err
            || at("nativeScrollbars"@, flag_field(e, "nativeScrollbars"@)) is Err
            || at("noAutoAuth"@, flag_field(e, "noAutoAuth"@)) is Err
            || at("onlyRequiredInSamples"@, flag_field(e, "onlyRequiredInSamples"@)) is Err
            || at("pathInMiddlePanel"@, flag_field(e, "pathInMiddlePanel"@)) is Err
            || at("requiredPropsFirst"@, flag_field(e, "requiredPropsFirst"@)) is Err
            || at("scrollYOffset"@, text_field(e, "scrollYOffset"@)) is Err
            || at("selector"@, text_field(e, "selector"@)) is Err
            || at("showExtensions"@, list_field(e, "showExtensions"@)) is Err
            || at("sortPropsAlphabetically"@, flag_field(e, "sortPropsAlphabetically"@)) is Err
            || at("payloadSampleIdx"@, count_field(e, "payloadSampleIdx"@)) is Err
            || nest(
        "theme"@,
        group_field(e, "theme"@),
        |g: Entries| theme_options_from(g),
    ) is Err
            || at("untrustedSpec"@, flag_field(e, "untrustedSpec"@)) is Err)
            ==> redoc_options_from(e) is Err,
{
    reveal(redoc_options_from);
}

/// A failed read names a value of the entries that has the wrong kind.
pub proof fn lemma_redoc_options_mismatch(e: Entries)
    requires
        redoc_options_from(e) is Err,
    ensures
        names_mismatch(Json::Object(e), redoc_options_from(e)->Err_0),
{
    if at("disableSearch"@, flag_field(e, "disableSearch"@)) is Err {
        assert(redoc_options_from(e)
            == Err::<RedocOptionsView, ConfigErrorView>(at("disableSearch"@, flag_field(e, "disableSearch"@))->Err_0)) by {
            reveal(redoc_options_from);
        }
        lemma_leaf_mismatch(e, "disableSearch"@, flag_field(e, "disableSearch"@)->Err_0);
    } else if at("expandDefaultServerVariables"@, flag_field(e, "expandDefaultServerVariables"@)) is Err {
        assert(redoc_options_from(e)
            == Err::<RedocOptionsView, ConfigErrorView>(at("expandDefaultServerVariables"@, flag_field(e, "expandDefaultServerVariables"@))->Err_0)) by {
            reveal(redoc_options_from);
        }
        lemma_leaf_mismatch(e, "expandDefaultServerVariables"@, flag_field(e, "expandDefaultServerVariables"@)->Err_0);
    } else if at("expandResponses"@, flag_field(e, "expandResponses"@)) is Err {
        assert(redoc_options_from(e)
            == Err::<RedocOptionsView, ConfigErrorView>(at("expandResponses"@, flag_field(e, "expandResponses"@))->Err_0)) by {
            reveal(redoc_options_from);
        }
        lemma_leaf_mismatch(e, "expandResponses"@, flag_field(e, "expandResponses"@)->Err_0);
    } else if at("generatedPayloadSamplesMaxDepth"@, count_field(e, "generatedPayloadSamplesMaxDepth"@)) is Err {
        assert(redoc_options_from(e)
            == Err::<RedocOptionsView, ConfigErrorView>(at("generatedPayloadSamplesMaxDepth"@, count_field(e, "generatedPayloadSamplesMaxDepth"@))->Err_0)) by {
            reveal(redoc_options_from);
        }
        lemma_leaf_mismatch(e, "generatedPayloadSamplesMaxDepth"@, count_field(e, "generatedPayloadSamplesMaxDepth"@)->Err_0);
    } else if at("maxDisplayedEnumValues"@, count_field(e, "maxDisplayedEnumValues"@)) is Err {
        assert(redoc_options_from(e)
            == Err::<RedocOptionsView, ConfigErrorView>(at("maxDisplayedEnumValues"@, count_field(e, "maxDisplayedEnumValues"@))->Err_0)) by {
            reveal(redoc_options_from);
        }
        lemma_leaf_mismatch(e, "maxDisplayedEnumValues"@, count_field(e, "maxDisplayedEnumValues"@)->Err_0);
    } else if at("hideDownloadButton"@, flag_field(e, "hideDownloadButton"@)) is Err {
        assert(redoc_options_from(e)
            == Err::<RedocOptionsView, ConfigErrorView>(at("hideDownloadButton"@, flag_field(e, "hideDownloadButton"@))->Err_0)) by {
            reveal(redoc_options_from);
        }
        lemma_leaf_mismatch(e, "hideDownloadButton"@, flag_field(e, "hideDownloadButton"@)->Err_0);
    } else if at("hideHostname"@, flag_field(e, "hideHostname"@)) is Err {
        assert(redoc_options_from(e)
            == Err::<RedocOptionsView, ConfigErrorView>(at("hideHostname"@, flag_field(e, "hideHostname"@))->Err_0)) by {
            reveal(redoc_options_from);
        }
        lemma_leaf_mismatch(e, "hideHostname"@, flag_field(e, "hideHostname"@)->Err_0);
    } else {
        lemma_redoc_options_mismatch_after_7(e);
    }
}

proof fn lemma_redoc_options_mismatch_after_7(e: Entries)
    requires
        redoc_options_from(e) is Err,
        at("disableSearch"@, flag_field(e, "disableSearch"@)) is Ok,
        at("expandDefaultServerVariables"@, flag_field(e, "expandDefaultServerVariables"@)) is Ok,
        at("expandResponses"@, flag_field(e, "expandResponses"@)) is Ok,
        at("generatedPayloadSamplesMaxDepth"@, count_field(e, "generatedPayloadSamplesMaxDepth"@)) is Ok,
        at("maxDisplayedEnumValues"@, count_field(e, "maxDisplayedEnumValues"@)) is Ok,
        at("hideDownloadButton"@, flag_field(e, "hideDownloadButton"@)) is Ok,
        at("hideHostname"@, flag_field(e, "hideHostname"@)) is Ok,
    ensures
        names_mismatch(Json::Object(e), redoc_options_from(e)->Err_0),
{
    if at("hideLoading"@, flag_field(e, "hideLoading"@)) is Err {
        assert(redoc_options_from(e)
            == Err::<RedocOptionsView, ConfigErrorView>(at("hideLoading"@, flag_field(e, "hideLoading"@))->Err_0)) by {
            reveal(redoc_options_from);
        }
        lemma_leaf_mismatch(e, "hideLoading"@, flag_field(e, "hideLoading"@)->Err_0);
    } else if at("hideSchemaPattern"@, flag_field(e, "hideSchemaPattern"@)) is Err {
        assert(redoc_options_from(e)
            == Err::<RedocOptionsView, ConfigErrorView>(at("hideSchemaPattern"@, flag_field(e, "hideSchemaPattern"@))->Err_0)) by {
            reveal(redoc_options_from);
        }
        lemma_leaf_mismatch(e, "hideSchemaPattern"@, flag_field(e, "hideSchemaPattern"@)->Err_0);
    } else if at("hideSingleRequestSampleTab"@, flag_field(e, "hideSingleRequestSampleTab"@)) is Err {
        assert(redoc_options_from(e)
            == Err::<RedocOptionsView, ConfigErrorView>(at("hideSingleRequestSampleTab"@, flag_field(e, "hideSingleRequestSampleTab"@))->Err_0)) by {
            reveal(redoc_options_from);
        }
        lemma_leaf_mismatch(e, "hideSingleRequestSampleTab"@, flag_field(e, "hideSingleRequestSampleTab"@)->Err_0);
    } else if at("expandSingleSchemaField"@, flag_field(e, "expandSingleSchemaField"@)) is Err {
        assert(redoc_options_from(e)
            == Err::<RedocOptionsView, ConfigErrorView>(at("expandSingleSchemaField"@, flag_field(e, "expandSingleSchemaField"@))->Err_0)) by {
            reveal(redoc_options_from);
        }
        lemma_leaf_mismatch(e, "expandSingleSchemaField"@, flag_field(e, "expandSingleSchemaField"@)->Err_0);
    } else if at("jsonSampleExpandLevel"@, count_field(e, "jsonSampleExpandLevel"@)) is Err {
        assert(redoc_options_from(e)
            == Err::<RedocOptionsView, ConfigErrorView>(at("jsonSampleExpandLevel"@, count_field(e, "jsonSampleExpandLevel"@))->Err_0)) by {
            reveal(redoc_options_from);
        }
        lemma_leaf_mismatch(e, "jsonSampleExpandLevel"@, count_field(e, "jsonSampleExpandLevel"@)->Err_0);
    } else if at("hideSchemaTitles"@, flag_field(e, "hideSchemaTitles"@)) is Err {
        assert(redoc_options_from(e)
            == Err::<RedocOptionsView, ConfigErrorView>(at("hideSchemaTitles"@, flag_field(e, "hideSchemaTitles"@))->Err_0)) by {
            reveal(redoc_options_from);
        }
        lemma_leaf_mismatch(e, "hideSchemaTitles"@, flag_field(e, "hideSchemaTitles"@)->Err_0);
    } else if at("simpleOneOfTypeLabel"@, flag_field(e, "simpleOneOfTypeLabel"@)) is Err {
        assert(redoc_options_from(e)
            == Err::<RedocOptionsView, ConfigErrorView>(at("simpleOneOfTypeLabel"@, flag_field(e, "simpleOneOfTypeLabel"@))->Err_0)) by {
            reveal(redoc_options_from);
        }
        lemma_leaf_mismatch(e, "simpleOneOfTypeLabel"@, flag_field(e, "simpleOneOfTypeLabel"@)->Err_0);
    } else {
        lemma_redoc_options_mismatch_after_14(e);
    }
}

proof fn lemma_redoc_options_mismatch_after_14(e: Entries)
    requires
        redoc_options_from(e) is Err,
        at("disableSearch"@, flag_field(e, "disableSearch"@)) is Ok,
        at("expandDefaultServerVariables"@, flag_field(e, "expandDefaultServerVariables"@)) is Ok,
        at("expandResponses"@, flag_field(e, "expandResponses"@)) is Ok,
        at("generatedPayloadSamplesMaxDepth"@, count_field(e, "generatedPayloadSamplesMaxDepth"@)) is Ok,
        at("maxDisplayedEnumValues"@, count_field(e, "maxDisplayedEnumValues"@)) is Ok,
        at("hideDownloadButton"@, flag_field(e, "hideDownloadButton"@)) is Ok,
        at("hideHostname"@, flag_field(e, "hideHostname"@)) is Ok,
        at("hideLoading"@, flag_field(e, "hideLoading"@)) is Ok,
        at("hideSchemaPattern"@, flag_field(e, "hideSchemaPattern"@)) is Ok,
        at("hideSingleRequestSampleTab"@, flag_field(e, "hideSingleRequestSampleTab"@)) is Ok,
        at("expandSingleSchemaField"@, flag_field(e, "expandSingleSchemaField"@)) is Ok,
        at("jsonSampleExpandLevel"@, count_field(e, "jsonSampleExpandLevel"@)) is Ok,
        at("hideSchemaTitles"@, flag_field(e, "hideSchemaTitles"@)) is Ok,
        at("simpleOneOfTypeLabel"@, flag_field(e, "simpleOneOfTypeLabel"@)) is Ok,
    ensures
        names_mismatch(Json::Object(e), redoc_options_from(e)->Err_0),
{
    if at("lazyRendering"@, flag_field(e, "lazyRendering"@)) is Err {
        assert(redoc_options_from(e)
            == Err::<RedocOptionsView, ConfigErrorView>(at("lazyRendering"@, flag_field(e, "lazyRendering"@))->Err_0)) by {
            reveal(redoc_options_from);
        }
        lemma_leaf_mismatch(e, "lazyRendering"@, flag_field(e, "lazyRendering"@)->Err_0);
    } else if at("menuToggle"@, flag_field(e, "menuToggle"@)) is Err {
        assert(redoc_options_from(e)
            == Err::<RedocOptionsView, ConfigErrorView>(at("menuToggle"@, flag_field(e, "menuToggle"@))->Err_0)) by {
            reveal(redoc_options_from);
        }
        lemma_leaf_mismatch(e, "menuToggle"@, flag_field(e, "menuToggle"@)->Err_0);
    } else if at("nativeScrollbars"@, flag_field(e, "nativeScrollbars"@)) is Err {
        assert(redoc_options_from(e)
            == Err::<RedocOptionsView, ConfigErrorView>(at("nativeScrollbars"@, flag_field(e, "nativeScrollbars"@))->Err_0)) by {
            reveal(redoc_options_from);
        }
        lemma_leaf_mismatch(e, "nativeScrollbars"@, flag_field(e, "nativeScrollbars"@)->Err_0);
    } else if at("noAutoAuth"@, flag_field(e, "noAutoAuth"@)) is Err {
        assert(redoc_options_from(e)
            == Err::<RedocOptionsView, ConfigErrorView>(at("noAutoAuth"@, flag_field(e, "noAutoAuth"@))->Err_0)) by {
            reveal(redoc_options_from);
        }
        lemma_leaf_mismatch(e, "noAutoAuth"@, flag_field(e, "noAutoAuth"@)->Err_0);
    } else if at("onlyRequiredInSamples"@, flag_field(e, "onlyRequiredInSamples"@)) is Err {
        assert(redoc_options_from(e)
            == Err::<RedocOptionsView, ConfigErrorView>(at("onlyRequiredInSamples"@, flag_field(e, "onlyRequiredInSamples"@))->Err_0)) by {
            reveal(redoc_options_from);
        }
        lemma_leaf_mismatch(e, "onlyRequiredInSamples"@, flag_field(e, "onlyRequiredInSamples"@)->Err_0);
    } else if at("pathInMiddlePanel"@, flag_field(e, "pathInMiddlePanel"@)) is Err {
        assert(redoc_options_from(e)
            == Err::<RedocOptionsView, ConfigErrorView>(at("pathInMiddlePanel"@, flag_field(e, "pathInMiddlePanel"@))->Err_0)) by {
            reveal(redoc_options_from);
        }
        lemma_leaf_mismatch(e, "pathInMiddlePanel"@, flag_field(e, "pathInMiddlePanel"@)->Err_0);
    } else if at("requiredPropsFirst"@, flag_field(e, "requiredPropsFirst"@)) is Err {
        assert(redoc_options_from(e)
            == Err::<RedocOptionsView, ConfigErrorView>(at("requiredPropsFirst"@, flag_field(e, "requiredPropsFirst"@))->Err_0)) by {
            reveal(redoc_options_from);
        }
        lemma_leaf_mismatch(e, "requiredPropsFirst"@, flag_field(e, "requiredPropsFirst"@)->Err_0);
    } else {
        lemma_redoc_options_mismatch_after_21(e);
    }
}

proof fn lemma_redoc_options_mismatch_after_21(e: Entries)
    requires
        redoc_options_from(e) is Err,
        at("disableSearch"@, flag_field(e, "disableSearch"@)) is Ok,
        at("expandDefaultServerVariables"@, flag_field(e, "expandDefaultServerVariables"@)) is Ok,
        at("expandResponses"@, flag_field(e, "expandResponses"@)) is Ok,
        at("generatedPayloadSamplesMaxDepth"@, count_field(e, "generatedPayloadSamplesMaxDepth"@)) is Ok,
        at("maxDisplayedEnumValues"@, count_field(e, "maxDisplayedEnumValues"@)) is Ok,
        at("hideDownloadButton"@, flag_field(e, "hideDownloadButton"@)) is Ok,
        at("hideHostname"@, flag_field(e, "hideHostname"@)) is Ok,
        at("hideLoading"@, flag_field(e, "hideLoading"@)) is Ok,
        at("hideSchemaPattern"@, flag_field(e, "hideSchemaPattern"@)) is Ok,
        at("hideSingleRequestSampleTab"@, flag_field(e, "hideSingleRequestSampleTab"@)) is Ok,
        at("expandSingleSchemaField"@, flag_field(e, "expandSingleSchemaField"@)) is Ok,
        at("jsonSampleExpandLevel"@, count_field(e, "jsonSampleExpandLevel"@)) is Ok,
        at("hideSchemaTitles"@, flag_field(e, "hideSchemaTitles"@)) is Ok,
        at("simpleOneOfTypeLabel"@, flag_field(e, "simpleOneOfTypeLabel"@)) is Ok,
        at("lazyRendering"@, flag_field(e, "lazyRendering"@)) is Ok,
        at("menuToggle"@, flag_field(e, "menuToggle"@)) is Ok,
        at("nativeScrollbars"@, flag_field(e, "nativeScrollbars"@)) is Ok,
        at("noAutoAuth"@, flag_field(e, "noAutoAuth"@)) is Ok,
        at("onlyRequiredInSamples"@, flag_field(e, "onlyRequiredInSamples"@)) is Ok,
        at("pathInMiddlePanel"@, flag_field(e, "pathInMiddlePanel"@)) is Ok,
        at("requiredPropsFirst"@, flag_field(e, "requiredPropsFirst"@)) is Ok,
    ensures
        names_mismatch(Json::Object(e), redoc_options_from(e)->Err_0),
{
    if at("scrollYOffset"@, text_field(e, "scrollYOffset"@)) is Err {
        assert(redoc_options_from(e)
            == Err::<RedocOptionsView, ConfigErrorView>(at("scrollYOffset"@, text_field(e, "scrollYOffset"@))->Err_0)) by {
            reveal(redoc_options_from);
        }
        lemma_leaf_mismatch(e, "scrollYOffset"@, text_field(e, "scrollYOffset"@)->Err_0);
    } else if at("selector"@, text_field(e, "selector"@)) is Err {
        assert(redoc_options_from(e)
            == Err::<RedocOptionsView, ConfigErrorView>(at("selector"@, text_field(e, "selector"@))->Err_0)) by {
            reveal(redoc_options_from);
        }
        lemma_leaf_mismatch(e, "selector"@, text_field(e, "selector"@)->Err_0);
    } else if at("showExtensions"@, list_field(e, "showExtensions"@)) is Err {
        assert(redoc_options_from(e)
            == Err::<RedocOptionsView, ConfigErrorView>(at("showExtensions"@, list_field(e, "showExtensions"@))->Err_0)) by {
            reveal(redoc_options_from);
        }
        lemma_leaf_mismatch(e, "showExtensions"@, list_field(e, "showExtensions"@)->Err_0);
    } else if at("sortPropsAlphabetically"@, flag_field(e, "sortPropsAlphabetically"@)) is Err {
        assert(redoc_options_from(e)
            == Err::<RedocOptionsView, ConfigErrorView>(at("sortPropsAlphabetically"@, flag_field(e, "sortPropsAlphabetically"@))->Err_0)) by {
            reveal(redoc_options_from);
        }
        lemma_leaf_mismatch(e, "sortPropsAlphabetically"@, flag_field(e, "sortPropsAlphabetically"@)->Err_0);
    } else if at("payloadSampleIdx"@, count_field(e, "payloadSampleIdx"@)) is Err {
        assert(redoc_options_from(e)
            == Err::<RedocOptionsView, ConfigErrorView>(at("payloadSampleIdx"@, count_field(e, "payloadSampleIdx"@))->Err_0)) by {
            reveal(redoc_options_from);
        }
        lemma_leaf_mismatch(e, "payloadSampleIdx"@, count_field(e, "payloadSampleIdx"@)->Err_0);
    } else if nest(
        "theme"@,
        group_field(e, "theme"@),
        |g: Entries| theme_options_from(g),
    ) is Err {
        assert(redoc_options_from(e)
            == Err::<RedocOptionsView, ConfigErrorView>(nest(
        "theme"@,
        group_field(e, "theme"@),
        |g: Entries| theme_options_from(g),
    )->Err_0)) by {
            reveal(redoc_options_from);
        }
        if group_field(e, "theme"@) is Err {
            lemma_leaf_mismatch(e, "theme"@, group_field(e, "theme"@)->Err_0);
        } else {
            let inner = group_field(e, "theme"@)->Ok_0->Some_0;
            lemma_theme_options_mismatch(inner);
            lemma_nested_mismatch(e, "theme"@, inner, theme_options_from(inner)->Err_0);
        }
    } else if at("untrustedSpec"@, flag_field(e, "untrustedSpec"@)) is Err {
        assert(redoc_options_from(e)
            == Err::<RedocOptionsView, ConfigErrorView>(at("untrustedSpec"@, flag_field(e, "untrustedSpec"@))->Err_0)) by {
            reveal(redoc_options_from);
        }
        lemma_leaf_mismatch(e, "untrustedSpec"@, flag_field(e, "untrustedSpec"@)->Err_0);
    } else {
        assert(redoc_options_from(e) is Ok) by {
            reveal(redoc_options_from);
        }
    }
}

impl RedocOptions {
    /// Reads the record from the entries of an object. Unknown keys are ignored.
    #[verifier::rlimit(100)]
    pub fn from_entries(entries: &Vec<(String, Value)>) -> (r: Result<RedocOptions, ConfigError>)
        ensures
            match r {
                Ok(v) => redoc_options_from(entries_view(entries@)) == Ok::<RedocOptionsView, ConfigErrorView>(v@),
                Err(e) => redoc_options_from(entries_view(entries@)) == Err::<RedocOptionsView, ConfigErrorView>(e@),
            },
    {
        proof {
            reveal(redoc_options_from);
        }
        let disable_search = match read_flag(entries, "disableSearch") {
            Ok(x) => x,
            Err(kind) => return Err(ConfigError::leaf("disableSearch", kind)),
        };
        let expand_default_server_variables = match read_flag(entries, "expandDefaultServerVariables") {
            Ok(x) => x,
            Err(kind) => return Err(ConfigError::leaf("expandDefaultServerVariables", kind)),
        };
        let expand_responses = match read_flag(entries, "expandResponses") {
            Ok(x) => x,
            Err(kind) => return Err(ConfigError::leaf("expandResponses", kind)),
        };
        let generated_payload_samples_max_depth = match read_count(entries, "generatedPayloadSamplesMaxDepth") {
            Ok(x) => x,
            Err(kind) => return Err(ConfigError::leaf("generatedPayloadSamplesMaxDepth", kind)),
        };
        let max_displayed_enum_values = match read_count(entries, "maxDisplayedEnumValues") {
            Ok(x) => x,
            Err(kind) => return Err(ConfigError::leaf("maxDisplayedEnumValues", kind)),
        };
        let hide_download_button = match read_flag(entries, "hideDownloadButton") {
            Ok(x) => x,
            Err(kind) => return Err(ConfigError::leaf("hideDownloadButton", kind)),
        };
        let hide_hostname = match read_flag(entries, "hideHostname") {
            Ok(x) => x,
            Err(kind) => return Err(ConfigError::leaf("hideHostname", kind)),
        };
        let hide_loading = match read_flag(entries, "hideLoading") {
            Ok(x) => x,
            Err(kind) => return Err(ConfigError::leaf("hideLoading", kind)),
        };
        let hide_schema_pattern = match read_flag(entries, "hideSchemaPattern") {
            Ok(x) => x,
            Err(kind) => return Err(ConfigError::leaf("hideSchemaPattern", kind)),
        };
        let hide_single_request_sample_tab = match read_flag(entries, "hideSingleRequestSampleTab") {
            Ok(x) => x,
            Err(kind) => return Err(ConfigError::leaf("hideSingleRequestSampleTab", kind)),
        };
        let expand_single_schema_field = match read_flag(entries, "expandSingleSchemaField") {
            Ok(x) => x,
            Err(kind) => return Err(ConfigError::leaf("expandSingleSchemaField", kind)),
        };
        let json_sample_expand_level = match read_count(entries, "jsonSampleExpandLevel") {
            Ok(x) => x,
            Err(kind) => return Err(ConfigError::leaf("jsonSampleExpandLevel", kind)),
        };
        let hide_schema_titles = match read_flag(entries, "hideSchemaTitles") {
            Ok(x) => x,
            Err(kind) => return Err(ConfigError::leaf("hideSchemaTitles", kind)),
        };
        let simple_one_of_type_label = match read_flag(entries, "simpleOneOfTypeLabel") {
            Ok(x) => x,
            Err(kind) => return Err(ConfigError::leaf("simpleOneOfTypeLabel", kind)),
        };
        let lazy_rendering = match read_flag(entries, "lazyRendering") {
            Ok(x) => x,
            Err(kind) => return Err(ConfigError::leaf("lazyRendering", kind)),
        };
        let menu_toggle = match read_flag(entries, "menuToggle") {
            Ok(x) => x,
            Err(kind) => return Err(ConfigError::leaf("menuToggle", kind)),
        };
        let native_scrollbars = match read_flag(entries, "nativeScrollbars") {
            Ok(x) => x,
            Err(kind) => return Err(ConfigError::leaf("nativeScrollbars", kind)),
        };
        let no_auto_auth = match read_flag(entries, "noAutoAuth") {
            Ok(x) => x,
            Err(kind) => return Err(ConfigError::leaf("noAutoAuth", kind)),
        };
        let only_required_in_samples = match read_flag(entries, "onlyRequiredInSamples") {
            Ok(x) => x,
            Err(kind) => return Err(ConfigError::leaf("onlyRequiredInSamples", kind)),
        };
        let path_in_middle_panel = match read_flag(entries, "pathInMiddlePanel") {
            Ok(x) => x,
            Err(kind) => return Err(ConfigError::leaf("pathInMiddlePanel", kind)),
        };
        let required_props_first = match read_flag(entries, "requiredPropsFirst") {
            Ok(x) => x,
            Err(kind) => return Err(ConfigError::leaf("requiredPropsFirst", kind)),
        };
        let scroll_y_offset = match read_text(entries, "scrollYOffset") {
            Ok(x) => x,
            Err(kind) => return Err(ConfigError::leaf("scrollYOffset", kind)),
        };
        let selector = match read_text(entries, "selector") {
            Ok(x) => x,
            Err(kind) => return Err(ConfigError::leaf("selector", kind)),
        };
        let show_extensions = match read_list(entries, "showExtensions") {
            Ok(x) => x,
            Err(kind) => return Err(ConfigError::leaf("showExtensions", kind)),
        };
        let sort_props_alphabetically = match read_flag(entries, "sortPropsAlphabetically") {
            Ok(x) => x,
            Err(kind) => return Err(ConfigError::leaf("sortPropsAlphabetically", kind)),
        };
        let payload_sample_idx = match read_count(entries, "payloadSampleIdx") {
            Ok(x) => x,
            Err(kind) => return Err(ConfigError::leaf("payloadSampleIdx", kind)),
        };
        let theme = match read_group(entries, "theme") {
            Ok(Some(inner)) => match ThemeOptions::from_entries(inner) {
                Ok(g) => Some(g),
                Err(e) => return Err(e.within("theme")),
            },
            Ok(None) => None,
            Err(kind) => return Err(ConfigError::leaf("theme", kind)),
        };
        let untrusted_spec = match read_flag(entries, "untrustedSpec") {
            Ok(x) => x,
            Err(kind) => return Err(ConfigError::leaf("untrustedSpec", kind)),
        };
        Ok(RedocOptions { disable_search, expand_default_server_variables, expand_responses, generated_payload_samples_max_depth, max_displayed_enum_values, hide_download_button, hide_hostname, hide_loading, hide_schema_pattern, hide_single_request_sample_tab, expand_single_schema_field, json_sample_expand_level, hide_schema_titles, simple_one_of_type_label, lazy_rendering, menu_toggle, native_scrollbars, no_auto_auth, only_required_in_samples, path_in_middle_panel, required_props_first, scroll_y_offset, selector, show_extensions, sort_props_alphabetically, payload_sample_idx, theme, untrusted_spec })
    }

    /// Writes the record as the entries of an object: each set field under its
    /// key, in field order.
    pub fn to_entries(&self) -> (r: Vec<(String, Value)>)
        ensures
            entries_view(r@) == redoc_options_wire(self@),
    {
        let keys: [&str; 28] = ["disableSearch", "expandDefaultServerVariables", "expandResponses", "generatedPayloadSamplesMaxDepth", "maxDisplayedEnumValues", "hideDownloadButton", "hideHostname", "hideLoading", "hideSchemaPattern", "hideSingleRequestSampleTab", "expandSingleSchemaField", "jsonSampleExpandLevel", "hideSchemaTitles", "simpleOneOfTypeLabel", "lazyRendering", "menuToggle", "nativeScrollbars", "noAutoAuth", "onlyRequiredInSamples", "pathInMiddlePanel", "requiredPropsFirst", "scrollYOffset", "selector", "showExtensions", "sortPropsAlphabetically", "payloadSampleIdx", "theme", "untrustedSpec"];
        let values: Vec<Option<Value>> = vec![
            flag_value(self.disable_search),
            flag_value(self.expand_default_server_variables),
            flag_value(self.expand_responses),
            count_value(self.generated_payload_samples_max_depth),
            count_value(self.max_displayed_enum_values),
            flag_value(self.hide_download_button),
            flag_value(self.hide_hostname),
            flag_value(self.hide_loading),
            flag_value(self.hide_schema_pattern),
            flag_value(self.hide_single_request_sample_tab),
            flag_value(self.expand_single_schema_field),
            count_value(self.json_sample_expand_level),
            flag_value(self.hide_schema_titles),
            flag_value(self.simple_one_of_type_label),
            flag_value(self.lazy_rendering),
            flag_value(self.menu_toggle),
            flag_value(self.native_scrollbars),
            flag_value(self.no_auto_auth),
            flag_value(self.only_required_in_samples),
            flag_value(self.path_in_middle_panel),
            flag_value(self.required_props_first),
            text_value(&self.scroll_y_offset),
            text_value(&self.selector),
            list_value(&self.show_extensions),
            flag_value(self.sort_props_alphabetically),
            count_value(self.payload_sample_idx),
            match &self.theme {
                Some(g) => Some(object_value(g.to_entries())),
                None => None,
            },
            flag_value(self.untrusted_spec),
        ];
        assert(keys@.map_values(|k: &str| k@) =~= redoc_options_keys());
        assert(opt_views(values@) =~= redoc_options_values(self@));
        entries_of(&keys, values)
    }
}

impl Default for RedocOptions {
    /// What an empty object reads as.
    fn default() -> (r: RedocOptions)
        ensures
            redoc_options_from(Seq::empty()) == Ok::<RedocOptionsView, ConfigErrorView>(r@),
    {
        proof {
            reveal(lookup);
            reveal(redoc_options_from);
        }
        RedocOptions {
            disable_search: None,
            expand_default_server_variables: None,
            expand_responses: None,
            generated_payload_samples_max_depth: None,
            max_displayed_enum_values: None,
            hide_download_button: None,
            hide_hostname: None,
            hide_loading: None,
            hide_schema_pattern: None,
            hide_single_request_sample_tab: None,
            expand_single_schema_field: None,
            json_sample_expand_level: None,
            hide_schema_titles: None,
            simple_one_of_type_label: None,
            lazy_rendering: None,
            menu_toggle: None,
            native_scrollbars: None,
            no_auto_auth: None,
            only_required_in_samples: None,
            path_in_middle_panel: None,
            required_props_first: None,
            scroll_y_offset: None,
            selector: None,
            show_extensions: None,
            sort_props_alphabetically: None,
            payload_sample_idx: None,
            theme: None,
            untrusted_spec: None,
        }
    }
}



} // verus!
