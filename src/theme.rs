//! Visual theme overrides handed to the renderer.

use crate::fields::{
    at, count_field, count_json, count_value, flag_field, flag_json, flag_value, group_field,
    lemma_count_round_trip, nest, number_field, number_json, number_value, read_count,
    read_flag, read_group, read_number, read_text, text_field, text_json, text_value,
    ConfigError, ConfigErrorView,
};
use crate::fields::{
    lemma_leaf_mismatch, lemma_nested_mismatch, names_mismatch, optional_fits, setting_fits,
    Expected,
};
use crate::value::{
    distinct_keys, entries_of, entries_view, fields_wire, lemma_lookup_fields_wire, lookup,
    object_value, opt_views, Entries, Json, Value,
};
use vstd::prelude::*;

verus! {

/// Spacing units of the layout.
#[derive(Debug, Clone, PartialEq)]
pub struct Spacing {
    pub unit: Option<u32>,
    pub section_horizontal: Option<u32>,
    pub section_vertical: Option<u32>,
}

pub struct SpacingView {
    pub unit: Option<u32>,
    pub section_horizontal: Option<u32>,
    pub section_vertical: Option<u32>,
}

impl View for Spacing {
    type V = SpacingView;

    open spec fn view(&self) -> SpacingView {
        SpacingView {
            unit: self.unit,
            section_horizontal: self.section_horizontal,
            section_vertical: self.section_vertical,
        }
    }
}

pub open spec fn spacing_keys() -> Seq<Seq<char>> {
    seq!["unit"@, "sectionHorizontal"@, "sectionVertical"@]
}

/// The record that the entries of an object denote, or the first field, in
/// field order, that has the wrong kind.
#[verifier::opaque]
pub open spec fn spacing_from(e: Entries) -> Result<SpacingView, ConfigErrorView> {
    let unit = at("unit"@, count_field(e, "unit"@));
    let section_horizontal = at("sectionHorizontal"@, count_field(e, "sectionHorizontal"@));
    let section_vertical = at("sectionVertical"@, count_field(e, "sectionVertical"@));
    if unit is Err {
        Err(unit->Err_0)
    } else if section_horizontal is Err {
        Err(section_horizontal->Err_0)
    } else if section_vertical is Err {
        Err(section_vertical->Err_0)
    } else {
        Ok(
            SpacingView {
                unit: unit->Ok_0,
                section_horizontal: section_horizontal->Ok_0,
                section_vertical: section_vertical->Ok_0,
            },
        )
    }
}

/// The value of each field in wire form, in field order; `None` for an unset
/// field.
pub open spec fn spacing_values(v: SpacingView) -> Seq<Option<Json>> {
    seq![
        count_json(v.unit),
        count_json(v.section_horizontal),
        count_json(v.section_vertical),
    ]
}

/// The entries that the record is written as: its set fields, in field order.
pub open spec fn spacing_wire(v: SpacingView) -> Entries {
    fields_wire(spacing_keys(), spacing_values(v))
}

pub proof fn lemma_spacing_keys()
    ensures
        distinct_keys(spacing_keys()),
{
    reveal_strlit("unit");
    reveal_strlit("sectionHorizontal");
    reveal_strlit("sectionVertical");
    assert("unit"@.len() == 4);
    assert("sectionHorizontal"@.len() == 17);
    assert("sectionVertical"@.len() == 15);
}

/// A record written as entries reads back as itself.
pub proof fn lemma_spacing_round_trip(v: SpacingView)
    ensures
        spacing_from(spacing_wire(v))
            == Ok::<SpacingView, ConfigErrorView>(v),
{
    reveal(spacing_from);
    let e = spacing_wire(v);
    let keys = spacing_keys();
    let values = spacing_values(v);
    lemma_spacing_keys();
    assert(at("unit"@, count_field(e, "unit"@))
        == Ok::<Option<u32>, ConfigErrorView>(v.unit)) by {
        lemma_lookup_fields_wire(keys, values, 0);
        assert(keys[0] == "unit"@);
        lemma_count_round_trip(e, keys[0], v.unit);
    }
    assert(at("sectionHorizontal"@, count_field(e, "sectionHorizontal"@))
        == Ok::<Option<u32>, ConfigErrorView>(v.section_horizontal)) by {
        lemma_lookup_fields_wire(keys, values, 1);
        assert(keys[1] == "sectionHorizontal"@);
        lemma_count_round_trip(e, keys[1], v.section_horizontal);
    }
    assert(at("sectionVertical"@, count_field(e, "sectionVertical"@))
        == Ok::<Option<u32>, ConfigErrorView>(v.section_vertical)) by {
        lemma_lookup_fields_wire(keys, values, 2);
        assert(keys[2] == "sectionVertical"@);
        lemma_count_round_trip(e, keys[2], v.section_vertical);
    }
}

/// Every key of the record that the entries hold has a value of its kind;
/// a nested record is well-typed in turn. Other keys may hold anything.
#[verifier::opaque]
pub open spec fn spacing_well_typed(e: Entries) -> bool {
    &&& optional_fits(lookup(e, "unit"@), Expected::Count)
    &&& optional_fits(lookup(e, "sectionHorizontal"@), Expected::Count)
    &&& optional_fits(lookup(e, "sectionVertical"@), Expected::Count)
}

/// The record reads without error exactly when the entries are well-typed.
pub proof fn lemma_spacing_reads_iff_well_typed(e: Entries)
    ensures
        spacing_from(e) is Ok <==> spacing_well_typed(e),
{
    reveal(spacing_from);
    reveal(spacing_well_typed);
}

/// What entries can be read as when they hold no keys.
pub proof fn lemma_spacing_empty()
    ensures
        spacing_from(Seq::empty()) is Ok,
{
    reveal(lookup);
    reveal(spacing_from);
}

/// A field of the wrong kind fails the whole record: nothing is read in part.
pub proof fn lemma_spacing_wrong_field_fails(e: Entries)
    ensures
        (at("unit"@, count_field(e, "unit"@)) is Err
            || at("sectionHorizontal"@, count_field(e, "sectionHorizontal"@)) is Err
            || at("sectionVertical"@, count_field(e, "sectionVertical"@)) is Err)
            ==> spacing_from(e) is Err,
{
    reveal(spacing_from);
}

/// A failed read names a value of the entries that has the wrong kind.
pub proof fn lemma_spacing_mismatch(e: Entries)
    requires
        spacing_from(e) is Err,
    ensures
        names_mismatch(Json::Object(e), spacing_from(e)->Err_0),
{
    if at("unit"@, count_field(e, "unit"@)) is Err {
        assert(spacing_from(e)
            == Err::<SpacingView, ConfigErrorView>(at("unit"@, count_field(e, "unit"@))->Err_0)) by {
            reveal(spacing_from);
        }
        lemma_leaf_mismatch(e, "unit"@, count_field(e, "unit"@)->Err_0);
    } else if at("sectionHorizontal"@, count_field(e, "sectionHorizontal"@)) is Err {
        assert(spacing_from(e)
            == Err::<SpacingView, ConfigErrorView>(at("sectionHorizontal"@, count_field(e, "sectionHorizontal"@))->Err_0)) by {
            reveal(spacing_from);
        }
        lemma_leaf_mismatch(e, "sectionHorizontal"@, count_field(e, "sectionHorizontal"@)->Err_0);
    } else if at("sectionVertical"@, count_field(e, "sectionVertical"@)) is Err {
        assert(spacing_from(e)
            == Err::<SpacingView, ConfigErrorView>(at("sectionVertical"@, count_field(e, "sectionVertical"@))->Err_0)) by {
            reveal(spacing_from);
        }
        lemma_leaf_mismatch(e, "sectionVertical"@, count_field(e, "sectionVertical"@)->Err_0);
    } else {
        assert(spacing_from(e) is Ok) by {
            reveal(spacing_from);
        }
    }
}

impl Spacing {
    /// Reads the record from the entries of an object. Unknown keys are ignored.
    pub fn from_entries(entries: &Vec<(String, Value)>) -> (r: Result<Spacing, ConfigError>)
        ensures
            match r {
                Ok(v) => spacing_from(entries_view(entries@)) == Ok::<SpacingView, ConfigErrorView>(v@),
                Err(e) => spacing_from(entries_view(entries@)) == Err::<SpacingView, ConfigErrorView>(e@),
            },
    {
        proof {
            reveal(spacing_from);
        }
        let unit = match read_count(entries, "unit") {
            Ok(x) => x,
            Err(kind) => return Err(ConfigError::leaf("unit", kind)),
        };
        let section_horizontal = match read_count(entries, "sectionHorizontal") {
            Ok(x) => x,
            Err(kind) => return Err(ConfigError::leaf("sectionHorizontal", kind)),
        };
        let section_vertical = match read_count(entries, "sectionVertical") {
            Ok(x) => x,
            Err(kind) => return Err(ConfigError::leaf("sectionVertical", kind)),
        };
        Ok(Spacing { unit, section_horizontal, section_vertical })
    }

    /// Writes the record as the entries of an object: each set field under its
    /// key, in field order.
    pub fn to_entries(&self) -> (r: Vec<(String, Value)>)
        ensures
            entries_view(r@) == spacing_wire(self@),
    {
        let keys: [&str; 3] = ["unit", "sectionHorizontal", "sectionVertical"];
        let values: Vec<Option<Value>> = vec![
            count_value(self.unit),
            count_value(self.section_horizontal),
            count_value(self.section_vertical),
        ];
        assert(keys@.map_values(|k: &str| k@) =~= spacing_keys());
        assert(opt_views(values@) =~= spacing_values(self@));
        entries_of(&keys, values)
    }
}

impl Default for Spacing {
    /// What an empty object reads as.
    fn default() -> (r: Spacing)
        ensures
            spacing_from(Seq::empty()) == Ok::<SpacingView, ConfigErrorView>(r@),
    {
        proof {
            reveal(lookup);
            reveal(spacing_from);
        }
        Spacing {
            unit: None,
            section_horizontal: None,
            section_vertical: None,
        }
    }
}

/// Widths at which the layout changes.
#[derive(Debug, Clone, PartialEq)]
pub struct Breakpoints {
    pub small: Option<String>,
    pub medium: Option<String>,
    pub large: Option<String>,
}

pub struct BreakpointsView {
    pub small: Option<Seq<char>>,
    pub medium: Option<Seq<char>>,
    pub large: Option<Seq<char>>,
}

impl View for Breakpoints {
    type V = BreakpointsView;

    open spec fn view(&self) -> BreakpointsView {
        BreakpointsView {
            small: self.small.deep_view(),
            medium: self.medium.deep_view(),
            large: self.large.deep_view(),
        }
    }
}

pub open spec fn breakpoints_keys() -> Seq<Seq<char>> {
    seq!["small"@, "medium"@, "large"@]
}

/// The record that the entries of an object denote, or the first field, in
/// field order, that has the wrong kind.
#[verifier::opaque]
pub open spec fn breakpoints_from(e: Entries) -> Result<BreakpointsView, ConfigErrorView> {
    let small = at("small"@, text_field(e, "small"@));
    let medium = at("medium"@, text_field(e, "medium"@));
    let large = at("large"@, text_field(e, "large"@));
    if small is Err {
        Err(small->Err_0)
    } else if medium is Err {
        Err(medium->Err_0)
    } else if large is Err {
        Err(large->Err_0)
    } else {
        Ok(
            BreakpointsView {
                small: small->Ok_0,
                medium: medium->Ok_0,
                large: large->Ok_0,
            },
        )
    }
}

/// The value of each field in wire form, in field order; `None` for an unset
/// field.
pub open spec fn breakpoints_values(v: BreakpointsView) -> Seq<Option<Json>> {
    seq![
        text_json(v.small),
        text_json(v.medium),
        text_json(v.large),
    ]
}

/// The entries that the record is written as: its set fields, in field order.
pub open spec fn breakpoints_wire(v: BreakpointsView) -> Entries {
    fields_wire(breakpoints_keys(), breakpoints_values(v))
}

pub proof fn lemma_breakpoints_keys()
    ensures
        distinct_keys(breakpoints_keys()),
{
    reveal_strlit("small");
    reveal_strlit("medium");
    reveal_strlit("large");
    assert("small"@.len() == 5);
    assert("medium"@.len() == 6);
    assert("large"@.len() == 5);
    assert("small"@[0] != "large"@[0]);
}

/// A record written as entries reads back as itself.
pub proof fn lemma_breakpoints_round_trip(v: BreakpointsView)
    ensures
        breakpoints_from(breakpoints_wire(v))
            == Ok::<BreakpointsView, ConfigErrorView>(v),
{
    reveal(breakpoints_from);
    let e = breakpoints_wire(v);
    let keys = breakpoints_keys();
    let values = breakpoints_values(v);
    lemma_breakpoints_keys();
    assert(at("small"@, text_field(e, "small"@))
        == Ok::<Option<Seq<char>>, ConfigErrorView>(v.small)) by {
        lemma_lookup_fields_wire(keys, values, 0);
        assert(keys[0] == "small"@);
    }
    assert(at("medium"@, text_field(e, "medium"@))
        == Ok::<Option<Seq<char>>, ConfigErrorView>(v.medium)) by {
        lemma_lookup_fields_wire(keys, values, 1);
        assert(keys[1] == "medium"@);
    }
    assert(at("large"@, text_field(e, "large"@))
        == Ok::<Option<Seq<char>>, ConfigErrorView>(v.large)) by {
        lemma_lookup_fields_wire(keys, values, 2);
        assert(keys[2] == "large"@);
    }
}

/// Every key of the record that the entries hold has a value of its kind;
/// a nested record is well-typed in turn. Other keys may hold anything.
#[verifier::opaque]
pub open spec fn breakpoints_well_typed(e: Entries) -> bool {
    &&& optional_fits(lookup(e, "small"@), Expected::Text)
    &&& optional_fits(lookup(e, "medium"@), Expected::Text)
    &&& optional_fits(lookup(e, "large"@), Expected::Text)
}

/// The record reads without error exactly when the entries are well-typed.
pub proof fn lemma_breakpoints_reads_iff_well_typed(e: Entries)
    ensures
        breakpoints_from(e) is Ok <==> breakpoints_well_typed(e),
{
    reveal(breakpoints_from);
    reveal(breakpoints_well_typed);
}

/// What entries can be read as when they hold no keys.
pub proof fn lemma_breakpoints_empty()
    ensures
        breakpoints_from(Seq::empty()) is Ok,
{
    reveal(lookup);
    reveal(breakpoints_from);
}

/// A field of the wrong kind fails the whole record: nothing is read in part.
pub proof fn lemma_breakpoints_wrong_field_fails(e: Entries)
    ensures
        (at("small"@, text_field(e, "small"@)) is Err
            || at("medium"@, text_field(e, "medium"@)) is Err
            || at("large"@, text_field(e, "large"@)) is Err)
            ==> breakpoints_from(e) is Err,
{
    reveal(breakpoints_from);
}

/// A failed read names a value of the entries that has the wrong kind.
pub proof fn lemma_breakpoints_mismatch(e: Entries)
    requires
        breakpoints_from(e) is Err,
    ensures
        names_mismatch(Json::Object(e), breakpoints_from(e)->Err_0),
{
    if at("small"@, text_field(e, "small"@)) is Err {
        assert(breakpoints_from(e)
            == Err::<BreakpointsView, ConfigErrorView>(at("small"@, text_field(e, "small"@))->Err_0)) by {
            reveal(breakpoints_from);
        }
        lemma_leaf_mismatch(e, "small"@, text_field(e, "small"@)->Err_0);
    } else if at("medium"@, text_field(e, "medium"@)) is Err {
        assert(breakpoints_from(e)
            == Err::<BreakpointsView, ConfigErrorView>(at("medium"@, text_field(e, "medium"@))->Err_0)) by {
            reveal(breakpoints_from);
        }
        lemma_leaf_mismatch(e, "medium"@, text_field(e, "medium"@)->Err_0);
    } else if at("large"@, text_field(e, "large"@)) is Err {
        assert(breakpoints_from(e)
            == Err::<BreakpointsView, ConfigErrorView>(at("large"@, text_field(e, "large"@))->Err_0)) by {
            reveal(breakpoints_from);
        }
        lemma_leaf_mismatch(e, "large"@, text_field(e, "large"@)->Err_0);
    } else {
        assert(breakpoints_from(e) is Ok) by {
            reveal(breakpoints_from);
        }
    }
}

impl Breakpoints {
    /// Reads the record from the entries of an object. Unknown keys are ignored.
    pub fn from_entries(entries: &Vec<(String, Value)>) -> (r: Result<Breakpoints, ConfigError>)
        ensures
            match r {
                Ok(v) => breakpoints_from(entries_view(entries@)) == Ok::<BreakpointsView, ConfigErrorView>(v@),
                Err(e) => breakpoints_from(entries_view(entries@)) == Err::<BreakpointsView, ConfigErrorView>(e@),
            },
    {
        proof {
            reveal(breakpoints_from);
        }
        let small = match read_text(entries, "small") {
            Ok(x) => x,
            Err(kind) => return Err(ConfigError::leaf("small", kind)),
        };
        let medium = match read_text(entries, "medium") {
            Ok(x) => x,
            Err(kind) => return Err(ConfigError::leaf("medium", kind)),
        };
        let large = match read_text(entries, "large") {
            Ok(x) => x,
            Err(kind) => return Err(ConfigError::leaf("large", kind)),
        };
        Ok(Breakpoints { small, medium, large })
    }

    /// Writes the record as the entries of an object: each set field under its
    /// key, in field order.
    pub fn to_entries(&self) -> (r: Vec<(String, Value)>)
        ensures
            entries_view(r@) == breakpoints_wire(self@),
    {
        let keys: [&str; 3] = ["small", "medium", "large"];
        let values: Vec<Option<Value>> = vec![
            text_value(&self.small),
            text_value(&self.medium),
            text_value(&self.large),
        ];
        assert(keys@.map_values(|k: &str| k@) =~= breakpoints_keys());
        assert(opt_views(values@) =~= breakpoints_values(self@));
        entries_of(&keys, values)
    }
}

impl Default for Breakpoints {
    /// What an empty object reads as.
    fn default() -> (r: Breakpoints)
        ensures
            breakpoints_from(Seq::empty()) == Ok::<BreakpointsView, ConfigErrorView>(r@),
    {
        proof {
            reveal(lookup);
            reveal(breakpoints_from);
        }
        Breakpoints {
            small: None,
            medium: None,
            large: None,
        }
    }
}

/// Colour adjustments. The tonal offset is kept as the numeral it was given as.
#[derive(Debug, Clone, PartialEq)]
pub struct Colors {
    pub tonal_offset: Option<String>,
}

pub struct ColorsView {
    pub tonal_offset: Option<Seq<char>>,
}

impl View for Colors {
    type V = ColorsView;

    open spec fn view(&self) -> ColorsView {
        ColorsView {
            tonal_offset: self.tonal_offset.deep_view(),
        }
    }
}

pub open spec fn colors_keys() -> Seq<Seq<char>> {
    seq!["tonalOffset"@]
}

/// The record that the entries of an object denote, or the first field, in
/// field order, that has the wrong kind.
#[verifier::opaque]
pub open spec fn colors_from(e: Entries) -> Result<ColorsView, ConfigErrorView> {
    let tonal_offset = at("tonalOffset"@, number_field(e, "tonalOffset"@));
    if tonal_offset is Err {
        Err(tonal_offset->Err_0)
    } else {
        Ok(
            ColorsView {
                tonal_offset: tonal_offset->Ok_0,
            },
        )
    }
}

/// The value of each field in wire form, in field order; `None` for an unset
/// field.
pub open spec fn colors_values(v: ColorsView) -> Seq<Option<Json>> {
    seq![
        number_json(v.tonal_offset),
    ]
}

/// The entries that the record is written as: its set fields, in field order.
pub open spec fn colors_wire(v: ColorsView) -> Entries {
    fields_wire(colors_keys(), colors_values(v))
}

pub proof fn lemma_colors_keys()
    ensures
        distinct_keys(colors_keys()),
{
    reveal_strlit("tonalOffset");
    assert("tonalOffset"@.len() == 11);
}

/// A record written as entries reads back as itself.
pub proof fn lemma_colors_round_trip(v: ColorsView)
    ensures
        colors_from(colors_wire(v))
            == Ok::<ColorsView, ConfigErrorView>(v),
{
    reveal(colors_from);
    let e = colors_wire(v);
    let keys = colors_keys();
    let values = colors_values(v);
    lemma_colors_keys();
    assert(at("tonalOffset"@, number_field(e, "tonalOffset"@))
        == Ok::<Option<Seq<char>>, ConfigErrorView>(v.tonal_offset)) by {
        lemma_lookup_fields_wire(keys, values, 0);
        assert(keys[0] == "tonalOffset"@);
    }
}

/// Every key of the record that the entries hold has a value of its kind;
/// a nested record is well-typed in turn. Other keys may hold anything.
#[verifier::opaque]
pub open spec fn colors_well_typed(e: Entries) -> bool {
    &&& optional_fits(lookup(e, "tonalOffset"@), Expected::Number)
}

/// The record reads without error exactly when the entries are well-typed.
pub proof fn lemma_colors_reads_iff_well_typed(e: Entries)
    ensures
        colors_from(e) is Ok <==> colors_well_typed(e),
{
    reveal(colors_from);
    reveal(colors_well_typed);
}

/// What entries can be read as when they hold no keys.
pub proof fn lemma_colors_empty()
    ensures
        colors_from(Seq::empty()) is Ok,
{
    reveal(lookup);
    reveal(colors_from);
}

/// A field of the wrong kind fails the whole record: nothing is read in part.
pub proof fn lemma_colors_wrong_field_fails(e: Entries)
    ensures
        (at("tonalOffset"@, number_field(e, "tonalOffset"@)) is Err)
            ==> colors_from(e) is Err,
{
    reveal(colors_from);
}

/// A failed read names a value of the entries that has the wrong kind.
pub proof fn lemma_colors_mismatch(e: Entries)
    requires
        colors_from(e) is Err,
    ensures
        names_mismatch(Json::Object(e), colors_from(e)->Err_0),
{
    if at("tonalOffset"@, number_field(e, "tonalOffset"@)) is Err {
        assert(colors_from(e)
            == Err::<ColorsView, ConfigErrorView>(at("tonalOffset"@, number_field(e, "tonalOffset"@))->Err_0)) by {
            reveal(colors_from);
        }
        lemma_leaf_mismatch(e, "tonalOffset"@, number_field(e, "tonalOffset"@)->Err_0);
    } else {
        assert(colors_from(e) is Ok) by {
            reveal(colors_from);
        }
    }
}

impl Colors {
    /// Reads the record from the entries of an object. Unknown keys are ignored.
    pub fn from_entries(entries: &Vec<(String, Value)>) -> (r: Result<Colors, ConfigError>)
        ensures
            match r {
                Ok(v) => colors_from(entries_view(entries@)) == Ok::<ColorsView, ConfigErrorView>(v@),
                Err(e) => colors_from(entries_view(entries@)) == Err::<ColorsView, ConfigErrorView>(e@),
            },
    {
        proof {
            reveal(colors_from);
        }
        let tonal_offset = match read_number(entries, "tonalOffset") {
            Ok(x) => x,
            Err(kind) => return Err(ConfigError::leaf("tonalOffset", kind)),
        };
        Ok(Colors { tonal_offset })
    }

    /// Writes the record as the entries of an object: each set field under its
    /// key, in field order.
    pub fn to_entries(&self) -> (r: Vec<(String, Value)>)
        ensures
            entries_view(r@) == colors_wire(self@),
    {
        let keys: [&str; 1] = ["tonalOffset"];
        let values: Vec<Option<Value>> = vec![
            number_value(&self.tonal_offset),
        ];
        assert(keys@.map_values(|k: &str| k@) =~= colors_keys());
        assert(opt_views(values@) =~= colors_values(self@));
        entries_of(&keys, values)
    }
}

impl Default for Colors {
    /// What an empty object reads as.
    fn default() -> (r: Colors)
        ensures
            colors_from(Seq::empty()) == Ok::<ColorsView, ConfigErrorView>(r@),
    {
        proof {
            reveal(lookup);
            reveal(colors_from);
        }
        Colors {
            tonal_offset: None,
        }
    }
}

/// Typography of headings.
#[derive(Debug, Clone, PartialEq)]
pub struct Headings {
    pub font_family: Option<String>,
    pub font_weight: Option<u32>,
    pub line_height: Option<String>,
}

pub struct HeadingsView {
    pub font_family: Option<Seq<char>>,
    pub font_weight: Option<u32>,
    pub line_height: Option<Seq<char>>,
}

impl View for Headings {
    type V = HeadingsView;

    open spec fn view(&self) -> HeadingsView {
        HeadingsView {
            font_family: self.font_family.deep_view(),
            font_weight: self.font_weight,
            line_height: self.line_height.deep_view(),
        }
    }
}

pub open spec fn headings_keys() -> Seq<Seq<char>> {
    seq!["fontFamily"@, "fontWeight"@, "lineHeight"@]
}

/// The record that the entries of an object denote, or the first field, in
/// field order, that has the wrong kind.
#[verifier::opaque]
pub open spec fn headings_from(e: Entries) -> Result<HeadingsView, ConfigErrorView> {
    let font_family = at("fontFamily"@, text_field(e, "fontFamily"@));
    let font_weight = at("fontWeight"@, count_field(e, "fontWeight"@));
    let line_height = at("lineHeight"@, text_field(e, "lineHeight"@));
    if font_family is Err {
        Err(font_family->Err_0)
    } else if font_weight is Err {
        Err(font_weight->Err_0)
    } else if line_height is Err {
        Err(line_height->Err_0)
    } else {
        Ok(
            HeadingsView {
                font_family: font_family->Ok_0,
                font_weight: font_weight->Ok_0,
                line_height: line_height->Ok_0,
            },
        )
    }
}

/// The value of each field in wire form, in field order; `None` for an unset
/// field.
pub open spec fn headings_values(v: HeadingsView) -> Seq<Option<Json>> {
    seq![
        text_json(v.font_family),
        count_json(v.font_weight),
        text_json(v.line_height),
    ]
}

/// The entries that the record is written as: its set fields, in field order.
pub open spec fn headings_wire(v: HeadingsView) -> Entries {
    fields_wire(headings_keys(), headings_values(v))
}

pub proof fn lemma_headings_keys()
    ensures
        distinct_keys(headings_keys()),
{
    reveal_strlit("fontFamily");
    reveal_strlit("fontWeight");
    reveal_strlit("lineHeight");
    assert("fontFamily"@.len() == 10);
    assert("fontWeight"@.len() == 10);
    assert("lineHeight"@.len() == 10);
    assert("fontFamily"@[4] != "fontWeight"@[4]);
    assert("fontFamily"@[0] != "lineHeight"@[0]);
    assert("fontWeight"@[0] != "lineHeight"@[0]);
}

/// A record written as entries reads back as itself.
pub proof fn lemma_headings_round_trip(v: HeadingsView)
    ensures
        headings_from(headings_wire(v))
            == Ok::<HeadingsView, ConfigErrorView>(v),
{
    reveal(headings_from);
    let e = headings_wire(v);
    let keys = headings_keys();
    let values = headings_values(v);
    lemma_headings_keys();
    assert(at("fontFamily"@, text_field(e, "fontFamily"@))
        == Ok::<Option<Seq<char>>, ConfigErrorView>(v.font_family)) by {
        lemma_lookup_fields_wire(keys, values, 0);
        assert(keys[0] == "fontFamily"@);
    }
    assert(at("fontWeight"@, count_field(e, "fontWeight"@))
        == Ok::<Option<u32>, ConfigErrorView>(v.font_weight)) by {
        lemma_lookup_fields_wire(keys, values, 1);
        assert(keys[1] == "fontWeight"@);
        lemma_count_round_trip(e, keys[1], v.font_weight);
    }
    assert(at("lineHeight"@, text_field(e, "lineHeight"@))
        == Ok::<Option<Seq<char>>, ConfigErrorView>(v.line_height)) by {
        lemma_lookup_fields_wire(keys, values, 2);
        assert(keys[2] == "lineHeight"@);
    }
}

/// Every key of the record that the entries hold has a value of its kind;
/// a nested record is well-typed in turn. Other keys may hold anything.
#[verifier::opaque]
pub open spec fn headings_well_typed(e: Entries) -> bool {
    &&& optional_fits(lookup(e, "fontFamily"@), Expected::Text)
    &&& optional_fits(lookup(e, "fontWeight"@), Expected::Count)
    &&& optional_fits(lookup(e, "lineHeight"@), Expected::Text)
}

/// The record reads without error exactly when the entries are well-typed.
pub proof fn lemma_headings_reads_iff_well_typed(e: Entries)
    ensures
        headings_from(e) is Ok <==> headings_well_typed(e),
{
    reveal(headings_from);
    reveal(headings_well_typed);
}

/// What entries can be read as when they hold no keys.
pub proof fn lemma_headings_empty()
    ensures
        headings_from(Seq::empty()) is Ok,
{
    reveal(lookup);
    reveal(headings_from);
}

/// A field of the wrong kind fails the whole record: nothing is read in part.
pub proof fn lemma_headings_wrong_field_fails(e: Entries)
    ensures
        (at("fontFamily"@, text_field(e, "fontFamily"@)) is Err
            || at("fontWeight"@, count_field(e, "fontWeight"@)) is Err
            || at("lineHeight"@, text_field(e, "lineHeight"@)) is Err)
            ==> headings_from(e) is Err,
{
    reveal(headings_from);
}

/// A failed read names a value of the entries that has the wrong kind.
pub proof fn lemma_headings_mismatch(e: Entries)
    requires
        headings_from(e) is Err,
    ensures
        names_mismatch(Json::Object(e), headings_from(e)->Err_0),
{
    if at("fontFamily"@, text_field(e, "fontFamily"@)) is Err {
        assert(headings_from(e)
            == Err::<HeadingsView, ConfigErrorView>(at("fontFamily"@, text_field(e, "fontFamily"@))->Err_0)) by {
            reveal(headings_from);
        }
        lemma_leaf_mismatch(e, "fontFamily"@, text_field(e, "fontFamily"@)->Err_0);
    } else if at("fontWeight"@, count_field(e, "fontWeight"@)) is Err {
        assert(headings_from(e)
            == Err::<HeadingsView, ConfigErrorView>(at("fontWeight"@, count_field(e, "fontWeight"@))->Err_0)) by {
            reveal(headings_from);
        }
        lemma_leaf_mismatch(e, "fontWeight"@, count_field(e, "fontWeight"@)->Err_0);
    } else if at("lineHeight"@, text_field(e, "lineHeight"@)) is Err {
        assert(headings_from(e)
            == Err::<HeadingsView, ConfigErrorView>(at("lineHeight"@, text_field(e, "lineHeight"@))->Err_0)) by {
            reveal(headings_from);
        }
        lemma_leaf_mismatch(e, "lineHeight"@, text_field(e, "lineHeight"@)->Err_0);
    } else {
        assert(headings_from(e) is Ok) by {
            reveal(headings_from);
        }
    }
}

impl Headings {
    /// Reads the record from the entries of an object. Unknown keys are ignored.
    pub fn from_entries(entries: &Vec<(String, Value)>) -> (r: Result<Headings, ConfigError>)
        ensures
            match r {
                Ok(v) => headings_from(entries_view(entries@)) == Ok::<HeadingsView, ConfigErrorView>(v@),
                Err(e) => headings_from(entries_view(entries@)) == Err::<HeadingsView, ConfigErrorView>(e@),
            },
    {
        proof {
            reveal(headings_from);
        }
        let font_family = match read_text(entries, "fontFamily") {
            Ok(x) => x,
            Err(kind) => return Err(ConfigError::leaf("fontFamily", kind)),
        };
        let font_weight = match read_count(entries, "fontWeight") {
            Ok(x) => x,
            Err(kind) => return Err(ConfigError::leaf("fontWeight", kind)),
        };
        let line_height = match read_text(entries, "lineHeight") {
            Ok(x) => x,
            Err(kind) => return Err(ConfigError::leaf("lineHeight", kind)),
        };
        Ok(Headings { font_family, font_weight, line_height })
    }

    /// Writes the record as the entries of an object: each set field under its
    /// key, in field order.
    pub fn to_entries(&self) -> (r: Vec<(String, Value)>)
        ensures
            entries_view(r@) == headings_wire(self@),
    {
        let keys: [&str; 3] = ["fontFamily", "fontWeight", "lineHeight"];
        let values: Vec<Option<Value>> = vec![
            text_value(&self.font_family),
            count_value(self.font_weight),
            text_value(&self.line_height),
        ];
        assert(keys@.map_values(|k: &str| k@) =~= headings_keys());
        assert(opt_views(values@) =~= headings_values(self@));
        entries_of(&keys, values)
    }
}

impl Default for Headings {
    /// What an empty object reads as.
    fn default() -> (r: Headings)
        ensures
            headings_from(Seq::empty()) == Ok::<HeadingsView, ConfigErrorView>(r@),
    {
        proof {
            reveal(lookup);
            reveal(headings_from);
        }
        Headings {
            font_family: None,
            font_weight: None,
            line_height: None,
        }
    }
}

/// Typography of code.
#[derive(Debug, Clone, PartialEq)]
pub struct Code {
    pub font_size: Option<String>,
    pub font_family: Option<String>,
    pub line_height: Option<u32>,
    pub font_weight: Option<u32>,
    pub color: Option<String>,
    pub background_color: Option<String>,
    pub wrap: Option<bool>,
}

pub struct CodeView {
    pub font_size: Option<Seq<char>>,
    pub font_family: Option<Seq<char>>,
    pub line_height: Option<u32>,
    pub font_weight: Option<u32>,
    pub color: Option<Seq<char>>,
    pub background_color: Option<Seq<char>>,
    pub wrap: Option<bool>,
}

impl View for Code {
    type V = CodeView;

    open spec fn view(&self) -> CodeView {
        CodeView {
            font_size: self.font_size.deep_view(),
            font_family: self.font_family.deep_view(),
            line_height: self.line_height,
            font_weight: self.font_weight,
            color: self.color.deep_view(),
            background_color: self.background_color.deep_view(),
            wrap: self.wrap,
        }
    }
}

pub open spec fn code_keys() -> Seq<Seq<char>> {
    seq![
        "fontSize"@,
        "fontFamily"@,
        "lineHeight"@,
        "fontWeight"@,
        "color"@,
        "backgroundColor"@,
        "wrap"@,
    ]
}

/// The record that the entries of an object denote, or the first field, in
/// field order, that has the wrong kind.
#[verifier::opaque]
pub open spec fn code_from(e: Entries) -> Result<CodeView, ConfigErrorView> {
    let font_size = at("fontSize"@, text_field(e, "fontSize"@));
    let font_family = at("fontFamily"@, text_field(e, "fontFamily"@));
    let line_height = at("lineHeight"@, count_field(e, "lineHeight"@));
    let font_weight = at("fontWeight"@, count_field(e, "fontWeight"@));
    let color = at("color"@, text_field(e, "color"@));
    let background_color = at("backgroundColor"@, text_field(e, "backgroundColor"@));
    let wrap = at("wrap"@, flag_field(e, "wrap"@));
    if font_size is Err {
        Err(font_size->Err_0)
    } else if font_family is Err {
        Err(font_family->Err_0)
    } else if line_height is Err {
        Err(line_height->Err_0)
    } else if font_weight is Err {
        Err(font_weight->Err_0)
    } else if color is Err {
        Err(color->Err_0)
    } else if background_color is Err {
        Err(background_color->Err_0)
    } else if wrap is Err {
        Err(wrap->Err_0)
    } else {
        Ok(
            CodeView {
                font_size: font_size->Ok_0,
                font_family: font_family->Ok_0,
                line_height: line_height->Ok_0,
                font_weight: font_weight->Ok_0,
                color: color->Ok_0,
                background_color: background_color->Ok_0,
                wrap: wrap->Ok_0,
            },
        )
    }
}

/// The value of each field in wire form, in field order; `None` for an unset
/// field.
pub open spec fn code_values(v: CodeView) -> Seq<Option<Json>> {
    seq![
        text_json(v.font_size),
        text_json(v.font_family),
        count_json(v.line_height),
        count_json(v.font_weight),
        text_json(v.color),
        text_json(v.background_color),
        flag_json(v.wrap),
    ]
}

/// The entries that the record is written as: its set fields, in field order.
pub open spec fn code_wire(v: CodeView) -> Entries {
    fields_wire(code_keys(), code_values(v))
}

pub proof fn lemma_code_keys()
    ensures
        distinct_keys(code_keys()),
{
    reveal_strlit("fontSize");
    reveal_strlit("fontFamily");
    reveal_strlit("lineHeight");
    reveal_strlit("fontWeight");
    reveal_strlit("color");
    reveal_strlit("backgroundColor");
    reveal_strlit("wrap");
    assert("fontSize"@.len() == 8);
    assert("fontFamily"@.len() == 10);
    assert("lineHeight"@.len() == 10);
    assert("fontWeight"@.len() == 10);
    assert("color"@.len() == 5);
    assert("backgroundColor"@.len() == 15);
    assert("wrap"@.len() == 4);
    assert("fontFamily"@[0] != "lineHeight"@[0]);
    assert("fontFamily"@[4] != "fontWeight"@[4]);
    assert("lineHeight"@[0] != "fontWeight"@[0]);
}

/// A record written as entries reads back as itself.
pub proof fn lemma_code_round_trip(v: CodeView)
    ensures
        code_from(code_wire(v))
            == Ok::<CodeView, ConfigErrorView>(v),
{
    reveal(code_from);
    let e = code_wire(v);
    let keys = code_keys();
    let values = code_values(v);
    lemma_code_keys();
    assert(at("fontSize"@, text_field(e, "fontSize"@))
        == Ok::<Option<Seq<char>>, ConfigErrorView>(v.font_size)) by {
        lemma_lookup_fields_wire(keys, values, 0);
        assert(keys[0] == "fontSize"@);
    }
    assert(at("fontFamily"@, text_field(e, "fontFamily"@))
        == Ok::<Option<Seq<char>>, ConfigErrorView>(v.font_family)) by {
        lemma_lookup_fields_wire(keys, values, 1);
        assert(keys[1] == "fontFamily"@);
    }
    assert(at("lineHeight"@, count_field(e, "lineHeight"@))
        == Ok::<Option<u32>, ConfigErrorView>(v.line_height)) by {
        lemma_lookup_fields_wire(keys, values, 2);
        assert(keys[2] == "lineHeight"@);
        lemma_count_round_trip(e, keys[2], v.line_height);
    }
    assert(at("fontWeight"@, count_field(e, "fontWeight"@))
        == Ok::<Option<u32>, ConfigErrorView>(v.font_weight)) by {
        lemma_lookup_fields_wire(keys, values, 3);
        assert(keys[3] == "fontWeight"@);
        lemma_count_round_trip(e, keys[3], v.font_weight);
    }
    assert(at("color"@, text_field(e, "color"@))
        == Ok::<Option<Seq<char>>, ConfigErrorView>(v.color)) by {
        lemma_lookup_fields_wire(keys, values, 4);
        assert(keys[4] == "color"@);
    }
    assert(at("backgroundColor"@, text_field(e, "backgroundColor"@))
        == Ok::<Option<Seq<char>>, ConfigErrorView>(v.background_color)) by {
        lemma_lookup_fields_wire(keys, values, 5);
        assert(keys[5] == "backgroundColor"@);
    }
    assert(at("wrap"@, flag_field(e, "wrap"@))
        == Ok::<Option<bool>, ConfigErrorView>(v.wrap)) by {
        lemma_lookup_fields_wire(keys, values, 6);
        assert(keys[6] == "wrap"@);
    }
}

/// Every key of the record that the entries hold has a value of its kind;
/// a nested record is well-typed in turn. Other keys may hold anything.
#[verifier::opaque]
pub open spec fn code_well_typed(e: Entries) -> bool {
    &&& optional_fits(lookup(e, "fontSize"@), Expected::Text)
    &&& optional_fits(lookup(e, "fontFamily"@), Expected::Text)
    &&& optional_fits(lookup(e, "lineHeight"@), Expected::Count)
    &&& optional_fits(lookup(e, "fontWeight"@), Expected::Count)
    &&& optional_fits(lookup(e, "color"@), Expected::Text)
    &&& optional_fits(lookup(e, "backgroundColor"@), Expected::Text)
    &&& optional_fits(lookup(e, "wrap"@), Expected::Flag)
}

/// The record reads without error exactly when the entries are well-typed.
pub proof fn lemma_code_reads_iff_well_typed(e: Entries)
    ensures
        code_from(e) is Ok <==> code_well_typed(e),
{
    reveal(code_from);
    reveal(code_well_typed);
}

/// What entries can be read as when they hold no keys.
pub proof fn lemma_code_empty()
    ensures
        code_from(Seq::empty()) is Ok,
{
    reveal(lookup);
    reveal(code_from);
}

/// A field of the wrong kind fails the whole record: nothing is read in part.
pub proof fn lemma_code_wrong_field_fails(e: Entries)
    ensures
        (at("fontSize"@, text_field(e, "fontSize"@)) is Err
            || at("fontFamily"@, text_field(e, "fontFamily"@)) is Err
            || at("lineHeight"@, count_field(e, "lineHeight"@)) is Err
            || at("fontWeight"@, count_field(e, "fontWeight"@)) is Err
            || at("color"@, text_field(e, "color"@)) is Err
            || at("backgroundColor"@, text_field(e, "backgroundColor"@)) is Err
            || at("wrap"@, flag_field(e, "wrap"@)) is Err)
            ==> code_from(e) is Err,
{
    reveal(code_from);
}

/// A failed read names a value of the entries that has the wrong kind.
pub proof fn lemma_code_mismatch(e: Entries)
    requires
        code_from(e) is Err,
    ensures
        names_mismatch(Json::Object(e), code_from(e)->Err_0),
{
    if at("fontSize"@, text_field(e, "fontSize"@)) is Err {
        assert(code_from(e)
            == Err::<CodeView, ConfigErrorView>(at("fontSize"@, text_field(e, "fontSize"@))->Err_0)) by {
            reveal(code_from);
        }
        lemma_leaf_mismatch(e, "fontSize"@, text_field(e, "fontSize"@)->Err_0);
    } else if at("fontFamily"@, text_field(e, "fontFamily"@)) is Err {
        assert(code_from(e)
            == Err::<CodeView, ConfigErrorView>(at("fontFamily"@, text_field(e, "fontFamily"@))->Err_0)) by {
            reveal(code_from);
        }
        lemma_leaf_mismatch(e, "fontFamily"@, text_field(e, "fontFamily"@)->Err_0);
    } else if at("lineHeight"@, count_field(e, "lineHeight"@)) is Err {
        assert(code_from(e)
            == Err::<CodeView, ConfigErrorView>(at("lineHeight"@, count_field(e, "lineHeight"@))->Err_0)) by {
            reveal(code_from);
        }
        lemma_leaf_mismatch(e, "lineHeight"@, count_field(e, "lineHeight"@)->Err_0);
    } else if at("fontWeight"@, count_field(e, "fontWeight"@)) is Err {
        assert(code_from(e)
            == Err::<CodeView, ConfigErrorView>(at("fontWeight"@, count_field(e, "fontWeight"@))->Err_0)) by {
            reveal(code_from);
        }
        lemma_leaf_mismatch(e, "fontWeight"@, count_field(e, "fontWeight"@)->Err_0);
    } else if at("color"@, text_field(e, "color"@)) is Err {
        assert(code_from(e)
            == Err::<CodeView, ConfigErrorView>(at("color"@, text_field(e, "color"@))->Err_0)) by {
            reveal(code_from);
        }
        lemma_leaf_mismatch(e, "color"@, text_field(e, "color"@)->Err_0);
    } else if at("backgroundColor"@, text_field(e, "backgroundColor"@)) is Err {
        assert(code_from(e)
            == Err::<CodeView, ConfigErrorView>(at("backgroundColor"@, text_field(e, "backgroundColor"@))->Err_0)) by {
            reveal(code_from);
        }
        lemma_leaf_mismatch(e, "backgroundColor"@, text_field(e, "backgroundColor"@)->Err_0);
    } else if at("wrap"@, flag_field(e, "wrap"@)) is Err {
        assert(code_from(e)
            == Err::<CodeView, ConfigErrorView>(at("wrap"@, flag_field(e, "wrap"@))->Err_0)) by {
            reveal(code_from);
        }
        lemma_leaf_mismatch(e, "wrap"@, flag_field(e, "wrap"@)->Err_0);
    } else {
        assert(code_from(e) is Ok) by {
            reveal(code_from);
        }
    }
}

impl Code {
    /// Reads the record from the entries of an object. Unknown keys are ignored.
    pub fn from_entries(entries: &Vec<(String, Value)>) -> (r: Result<Code, ConfigError>)
        ensures
            match r {
                Ok(v) => code_from(entries_view(entries@)) == Ok::<CodeView, ConfigErrorView>(v@),
                Err(e) => code_from(entries_view(entries@)) == Err::<CodeView, ConfigErrorView>(e@),
            },
    {
        proof {
            reveal(code_from);
        }
        let font_size = match read_text(entries, "fontSize") {
            Ok(x) => x,
            Err(kind) => return Err(ConfigError::leaf("fontSize", kind)),
        };
        let font_family = match read_text(entries, "fontFamily") {
            Ok(x) => x,
            Err(kind) => return Err(ConfigError::leaf("fontFamily", kind)),
        };
        let line_height = match read_count(entries, "lineHeight") {
            Ok(x) => x,
            Err(kind) => return Err(ConfigError::leaf("lineHeight", kind)),
        };
        let font_weight = match read_count(entries, "fontWeight") {
            Ok(x) => x,
            Err(kind) => return Err(ConfigError::leaf("fontWeight", kind)),
        };
        let color = match read_text(entries, "color") {
            Ok(x) => x,
            Err(kind) => return Err(ConfigError::leaf("color", kind)),
        };
        let background_color = match read_text(entries, "backgroundColor") {
            Ok(x) => x,
            Err(kind) => return Err(ConfigError::leaf("backgroundColor", kind)),
        };
        let wrap = match read_flag(entries, "wrap") {
            Ok(x) => x,
            Err(kind) => return Err(ConfigError::leaf("wrap", kind)),
        };
        Ok(Code { font_size, font_family, line_height, font_weight, color, background_color, wrap })
    }

    /// Writes the record as the entries of an object: each set field under its
    /// key, in field order.
    pub fn to_entries(&self) -> (r: Vec<(String, Value)>)
        ensures
            entries_view(r@) == code_wire(self@),
    {
        let keys: [&str; 7] = ["fontSize", "fontFamily", "lineHeight", "fontWeight", "color", "backgroundColor", "wrap"];
        let values: Vec<Option<Value>> = vec![
            text_value(&self.font_size),
            text_value(&self.font_family),
            count_value(self.line_height),
            count_value(self.font_weight),
            text_value(&self.color),
            text_value(&self.background_color),
            flag_value(self.wrap),
        ];
        assert(keys@.map_values(|k: &str| k@) =~= code_keys());
        assert(opt_views(values@) =~= code_values(self@));
        entries_of(&keys, values)
    }
}

impl Default for Code {
    /// What an empty object reads as.
    fn default() -> (r: Code)
        ensures
            code_from(Seq::empty()) == Ok::<CodeView, ConfigErrorView>(r@),
    {
        proof {
            reveal(lookup);
            reveal(code_from);
        }
        Code {
            font_size: None,
            font_family: None,
            line_height: None,
            font_weight: None,
            color: None,
            background_color: None,
            wrap: None,
        }
    }
}

/// Colours of links.
#[derive(Debug, Clone, PartialEq)]
pub struct Links {
    pub color: Option<String>,
    pub visited: Option<String>,
    pub hover: Option<String>,
}

pub struct LinksView {
    pub color: Option<Seq<char>>,
    pub visited: Option<Seq<char>>,
    pub hover: Option<Seq<char>>,
}

impl View for Links {
    type V = LinksView;

    open spec fn view(&self) -> LinksView {
        LinksView {
            color: self.color.deep_view(),
            visited: self.visited.deep_view(),
            hover: self.hover.deep_view(),
        }
    }
}

pub open spec fn links_keys() -> Seq<Seq<char>> {
    seq!["color"@, "visited"@, "hover"@]
}

/// The record that the entries of an object denote, or the first field, in
/// field order, that has the wrong kind.
#[verifier::opaque]
pub open spec fn links_from(e: Entries) -> Result<LinksView, ConfigErrorView> {
    let color = at("color"@, text_field(e, "color"@));
    let visited = at("visited"@, text_field(e, "visited"@));
    let hover = at("hover"@, text_field(e, "hover"@));
    if color is Err {
        Err(color->Err_0)
    } else if visited is Err {
        Err(visited->Err_0)
    } else if hover is Err {
        Err(hover->Err_0)
    } else {
        Ok(
            LinksView {
                color: color->Ok_0,
                visited: visited->Ok_0,
                hover: hover->Ok_0,
            },
        )
    }
}

/// The value of each field in wire form, in field order; `None` for an unset
/// field.
pub open spec fn links_values(v: LinksView) -> Seq<Option<Json>> {
    seq![
        text_json(v.color),
        text_json(v.visited),
        text_json(v.hover),
    ]
}

/// The entries that the record is written as: its set fields, in field order.
pub open spec fn links_wire(v: LinksView) -> Entries {
    fields_wire(links_keys(), links_values(v))
}

pub proof fn lemma_links_keys()
    ensures
        distinct_keys(links_keys()),
{
    reveal_strlit("color");
    reveal_strlit("visited");
    reveal_strlit("hover");
    assert("color"@.len() == 5);
    assert("visited"@.len() == 7);
    assert("hover"@.len() == 5);
    assert("color"@[0] != "hover"@[0]);
}

/// A record written as entries reads back as itself.
pub proof fn lemma_links_round_trip(v: LinksView)
    ensures
        links_from(links_wire(v))
            == Ok::<LinksView, ConfigErrorView>(v),
{
    reveal(links_from);
    let e = links_wire(v);
    let keys = links_keys();
    let values = links_values(v);
    lemma_links_keys();
    assert(at("color"@, text_field(e, "color"@))
        == Ok::<Option<Seq<char>>, ConfigErrorView>(v.color)) by {
        lemma_lookup_fields_wire(keys, values, 0);
        assert(keys[0] == "color"@);
    }
    assert(at("visited"@, text_field(e, "visited"@))
        == Ok::<Option<Seq<char>>, ConfigErrorView>(v.visited)) by {
        lemma_lookup_fields_wire(keys, values, 1);
        assert(keys[1] == "visited"@);
    }
    assert(at("hover"@, text_field(e, "hover"@))
        == Ok::<Option<Seq<char>>, ConfigErrorView>(v.hover)) by {
        lemma_lookup_fields_wire(keys, values, 2);
        assert(keys[2] == "hover"@);
    }
}

/// Every key of the record that the entries hold has a value of its kind;
/// a nested record is well-typed in turn. Other keys may hold anything.
#[verifier::opaque]
pub open spec fn links_well_typed(e: Entries) -> bool {
    &&& optional_fits(lookup(e, "color"@), Expected::Text)
    &&& optional_fits(lookup(e, "visited"@), Expected::Text)
    &&& optional_fits(lookup(e, "hover"@), Expected::Text)
}

/// The record reads without error exactly when the entries are well-typed.
pub proof fn lemma_links_reads_iff_well_typed(e: Entries)
    ensures
        links_from(e) is Ok <==> links_well_typed(e),
{
    reveal(links_from);
    reveal(links_well_typed);
}

/// What entries can be read as when they hold no keys.
pub proof fn lemma_links_empty()
    ensures
        links_from(Seq::empty()) is Ok,
{
    reveal(lookup);
    reveal(links_from);
}

/// A field of the wrong kind fails the whole record: nothing is read in part.
pub proof fn lemma_links_wrong_field_fails(e: Entries)
    ensures
        (at("color"@, text_field(e, "color"@)) is Err
            || at("visited"@, text_field(e, "visited"@)) is Err
            || at("hover"@, text_field(e, "hover"@)) is Err)
            ==> links_from(e) is Err,
{
    reveal(links_from);
}

/// A failed read names a value of the entries that has the wrong kind.
pub proof fn lemma_links_mismatch(e: Entries)
    requires
        links_from(e) is Err,
    ensures
        names_mismatch(Json::Object(e), links_from(e)->Err_0),
{
    if at("color"@, text_field(e, "color"@)) is Err {
        assert(links_from(e)
            == Err::<LinksView, ConfigErrorView>(at("color"@, text_field(e, "color"@))->Err_0)) by {
            reveal(links_from);
        }
        lemma_leaf_mismatch(e, "color"@, text_field(e, "color"@)->Err_0);
    } else if at("visited"@, text_field(e, "visited"@)) is Err {
        assert(links_from(e)
            == Err::<LinksView, ConfigErrorView>(at("visited"@, text_field(e, "visited"@))->Err_0)) by {
            reveal(links_from);
        }
        lemma_leaf_mismatch(e, "visited"@, text_field(e, "visited"@)->Err_0);
    } else if at("hover"@, text_field(e, "hover"@)) is Err {
        assert(links_from(e)
            == Err::<LinksView, ConfigErrorView>(at("hover"@, text_field(e, "hover"@))->Err_0)) by {
            reveal(links_from);
        }
        lemma_leaf_mismatch(e, "hover"@, text_field(e, "hover"@)->Err_0);
    } else {
        assert(links_from(e) is Ok) by {
            reveal(links_from);
        }
    }
}

impl Links {
    /// Reads the record from the entries of an object. Unknown keys are ignored.
    pub fn from_entries(entries: &Vec<(String, Value)>) -> (r: Result<Links, ConfigError>)
        ensures
            match r {
                Ok(v) => links_from(entries_view(entries@)) == Ok::<LinksView, ConfigErrorView>(v@),
                Err(e) => links_from(entries_view(entries@)) == Err::<LinksView, ConfigErrorView>(e@),
            },
    {
        proof {
            reveal(links_from);
        }
        let color = match read_text(entries, "color") {
            Ok(x) => x,
            Err(kind) => return Err(ConfigError::leaf("color", kind)),
        };
        let visited = match read_text(entries, "visited") {
            Ok(x) => x,
            Err(kind) => return Err(ConfigError::leaf("visited", kind)),
        };
        let hover = match read_text(entries, "hover") {
            Ok(x) => x,
            Err(kind) => return Err(ConfigError::leaf("hover", kind)),
        };
        Ok(Links { color, visited, hover })
    }

    /// Writes the record as the entries of an object: each set field under its
    /// key, in field order.
    pub fn to_entries(&self) -> (r: Vec<(String, Value)>)
        ensures
            entries_view(r@) == links_wire(self@),
    {
        let keys: [&str; 3] = ["color", "visited", "hover"];
        let values: Vec<Option<Value>> = vec![
            text_value(&self.color),
            text_value(&self.visited),
            text_value(&self.hover),
        ];
        assert(keys@.map_values(|k: &str| k@) =~= links_keys());
        assert(opt_views(values@) =~= links_values(self@));
        entries_of(&keys, values)
    }
}

impl Default for Links {
    /// What an empty object reads as.
    fn default() -> (r: Links)
        ensures
            links_from(Seq::empty()) == Ok::<LinksView, ConfigErrorView>(r@),
    {
        proof {
            reveal(lookup);
            reveal(links_from);
        }
        Links {
            color: None,
            visited: None,
            hover: None,
        }
    }
}

/// Fonts and text settings.
#[derive(Debug, Clone, PartialEq)]
pub struct Typography {
    pub font_size: Option<String>,
    pub line_height: Option<String>,
    pub font_weight_regular: Option<u32>,
    pub font_weight_bold: Option<u32>,
    pub font_weight_light: Option<u32>,
    pub font_family: Option<String>,
    pub smoothing: Option<String>,
    pub optimize_speed: Option<bool>,
    pub headings: Option<Headings>,
    pub code: Option<Code>,
    pub links: Option<Links>,
}

pub struct TypographyView {
    pub font_size: Option<Seq<char>>,
    pub line_height: Option<Seq<char>>,
    pub font_weight_regular: Option<u32>,
    pub font_weight_bold: Option<u32>,
    pub font_weight_light: Option<u32>,
    pub font_family: Option<Seq<char>>,
    pub smoothing: Option<Seq<char>>,
    pub optimize_speed: Option<bool>,
    pub headings: Option<HeadingsView>,
    pub code: Option<CodeView>,
    pub links: Option<LinksView>,
}

impl View for Typography {
    type V = TypographyView;

    open spec fn view(&self) -> TypographyView {
        TypographyView {
            font_size: self.font_size.deep_view(),
            line_height: self.line_height.deep_view(),
            font_weight_regular: self.font_weight_regular,
            font_weight_bold: self.font_weight_bold,
            font_weight_light: self.font_weight_light,
            font_family: self.font_family.deep_view(),
            smoothing: self.smoothing.deep_view(),
            optimize_speed: self.optimize_speed,
            headings: match self.headings {
                Some(g) => Some(g@),
                None => None,
            },
            code: match self.code {
                Some(g) => Some(g@),
                None => None,
            },
            links: match self.links {
                Some(g) => Some(g@),
                None => None,
            },
        }
    }
}

pub open spec fn typography_keys() -> Seq<Seq<char>> {
    seq![
        "fontSize"@,
        "lineHeight"@,
        "fontWeightRegular"@,
        "fontWeightBold"@,
        "fontWeightLight"@,
        "fontFamily"@,
        "smoothing"@,
        "optimizeSpeed"@,
        "headings"@,
        "code"@,
        "links"@,
    ]
}

/// The record that the entries of an object denote, or the first field, in
/// field order, that has the wrong kind.
#[verifier::opaque]
pub open spec fn typography_from(e: Entries) -> Result<TypographyView, ConfigErrorView> {
    let font_size = at("fontSize"@, text_field(e, "fontSize"@));
    let line_height = at("lineHeight"@, text_field(e, "lineHeight"@));
    let font_weight_regular = at("fontWeightRegular"@, count_field(e, "fontWeightRegular"@));
    let font_weight_bold = at("fontWeightBold"@, count_field(e, "fontWeightBold"@));
    let font_weight_light = at("fontWeightLight"@, count_field(e, "fontWeightLight"@));
    let font_family = at("fontFamily"@, text_field(e, "fontFamily"@));
    let smoothing = at("smoothing"@, text_field(e, "smoothing"@));
    let optimize_speed = at("optimizeSpeed"@, flag_field(e, "optimizeSpeed"@));
    let headings = nest(
        "headings"@,
        group_field(e, "headings"@),
        |g: Entries| headings_from(g),
    );
    let code = nest(
        "code"@,
        group_field(e, "code"@),
        |g: Entries| code_from(g),
    );
    let links = nest(
        "links"@,
        group_field(e, "links"@),
        |g: Entries| links_from(g),
    );
    if font_size is Err {
        Err(font_size->Err_0)
    } else if line_height is Err {
        Err(line_height->Err_0)
    } else if font_weight_regular is Err {
        Err(font_weight_regular->Err_0)
    } else if font_weight_bold is Err {
        Err(font_weight_bold->Err_0)
    } else if font_weight_light is Err {
        Err(font_weight_light->Err_0)
    } else if font_family is Err {
        Err(font_family->Err_0)
    } else if smoothing is Err {
        Err(smoothing->Err_0)
    } else if optimize_speed is Err {
        Err(optimize_speed->Err_0)
    } else if headings is Err {
        Err(headings->Err_0)
    } else if code is Err {
        Err(code->Err_0)
    } else if links is Err {
        Err(links->Err_0)
    } else {
        Ok(
            TypographyView {
                font_size: font_size->Ok_0,
                line_height: line_height->Ok_0,
                font_weight_regular: font_weight_regular->Ok_0,
                font_weight_bold: font_weight_bold->Ok_0,
                font_weight_light: font_weight_light->Ok_0,
                font_family: font_family->Ok_0,
                smoothing: smoothing->Ok_0,
                optimize_speed: optimize_speed->Ok_0,
                headings: headings->Ok_0,
                code: code->Ok_0,
                links: links->Ok_0,
            },
        )
    }
}

/// The value of each field in wire form, in field order; `None` for an unset
/// field.
pub open spec fn typography_values(v: TypographyView) -> Seq<Option<Json>> {
    seq![
        text_json(v.font_size),
        text_json(v.line_height),
        count_json(v.font_weight_regular),
        count_json(v.font_weight_bold),
        count_json(v.font_weight_light),
        text_json(v.font_family),
        text_json(v.smoothing),
        flag_json(v.optimize_speed),
        match v.headings {
            Some(g) => Some(Json::Object(headings_wire(g))),
            None => None,
        },
        match v.code {
            Some(g) => Some(Json::Object(code_wire(g))),
            None => None,
        },
        match v.links {
            Some(g) => Some(Json::Object(links_wire(g))),
            None => None,
        },
    ]
}

/// The entries that the record is written as: its set fields, in field order.
pub open spec fn typography_wire(v: TypographyView) -> Entries {
    fields_wire(typography_keys(), typography_values(v))
}

pub proof fn lemma_typography_keys()
    ensures
        distinct_keys(typography_keys()),
{
    reveal_strlit("fontSize");
    reveal_strlit("lineHeight");
    reveal_strlit("fontWeightRegular");
    reveal_strlit("fontWeightBold");
    reveal_strlit("fontWeightLight");
    reveal_strlit("fontFamily");
    reveal_strlit("smoothing");
    reveal_strlit("optimizeSpeed");
    reveal_strlit("headings");
    reveal_strlit("code");
    reveal_strlit("links");
    assert("fontSize"@.len() == 8);
    assert("lineHeight"@.len() == 10);
    assert("fontWeightRegular"@.len() == 17);
    assert("fontWeightBold"@.len() == 14);
    assert("fontWeightLight"@.len() == 15);
    assert("fontFamily"@.len() == 10);
    assert("smoothing"@.len() == 9);
    assert("optimizeSpeed"@.len() == 13);
    assert("headings"@.len() == 8);
    assert("code"@.len() == 4);
    assert("links"@.len() == 5);
    assert("fontSize"@[0] != "headings"@[0]);
    assert("lineHeight"@[0] != "fontFamily"@[0]);
}

/// A record written as entries reads back as itself.
pub proof fn lemma_typography_round_trip(v: TypographyView)
    ensures
        typography_from(typography_wire(v))
            == Ok::<TypographyView, ConfigErrorView>(v),
{
    reveal(typography_from);
    let e = typography_wire(v);
    let keys = typography_keys();
    let values = typography_values(v);
    lemma_typography_keys();
    assert(at("fontSize"@, text_field(e, "fontSize"@))
        == Ok::<Option<Seq<char>>, ConfigErrorView>(v.font_size)) by {
        lemma_lookup_fields_wire(keys, values, 0);
        assert(keys[0] == "fontSize"@);
    }
    assert(at("lineHeight"@, text_field(e, "lineHeight"@))
        == Ok::<Option<Seq<char>>, ConfigErrorView>(v.line_height)) by {
        lemma_lookup_fields_wire(keys, values, 1);
        assert(keys[1] == "lineHeight"@);
    }
    assert(at("fontWeightRegular"@, count_field(e, "fontWeightRegular"@))
        == Ok::<Option<u32>, ConfigErrorView>(v.font_weight_regular)) by {
        lemma_lookup_fields_wire(keys, values, 2);
        assert(keys[2] == "fontWeightRegular"@);
        lemma_count_round_trip(e, keys[2], v.font_weight_regular);
    }
    assert(at("fontWeightBold"@, count_field(e, "fontWeightBold"@))
        == Ok::<Option<u32>, ConfigErrorView>(v.font_weight_bold)) by {
        lemma_lookup_fields_wire(keys, values, 3);
        assert(keys[3] == "fontWeightBold"@);
        lemma_count_round_trip(e, keys[3], v.font_weight_bold);
    }
    assert(at("fontWeightLight"@, count_field(e, "fontWeightLight"@))
        == Ok::<Option<u32>, ConfigErrorView>(v.font_weight_light)) by {
        lemma_lookup_fields_wire(keys, values, 4);
        assert(keys[4] == "fontWeightLight"@);
        lemma_count_round_trip(e, keys[4], v.font_weight_light);
    }
    assert(at("fontFamily"@, text_field(e, "fontFamily"@))
        == Ok::<Option<Seq<char>>, ConfigErrorView>(v.font_family)) by {
        lemma_lookup_fields_wire(keys, values, 5);
        assert(keys[5] == "fontFamily"@);
    }
    assert(at("smoothing"@, text_field(e, "smoothing"@))
        == Ok::<Option<Seq<char>>, ConfigErrorView>(v.smoothing)) by {
        lemma_lookup_fields_wire(keys, values, 6);
        assert(keys[6] == "smoothing"@);
    }
    assert(at("optimizeSpeed"@, flag_field(e, "optimizeSpeed"@))
        == Ok::<Option<bool>, ConfigErrorView>(v.optimize_speed)) by {
        lemma_lookup_fields_wire(keys, values, 7);
        assert(keys[7] == "optimizeSpeed"@);
    }
    assert(nest(
        "headings"@,
        group_field(e, "headings"@),
        |g: Entries| headings_from(g),
    )
        == Ok::<Option<HeadingsView>, ConfigErrorView>(v.headings)) by {
        lemma_lookup_fields_wire(keys, values, 8);
        assert(keys[8] == "headings"@);
        if let Some(g) = v.headings {
            lemma_headings_round_trip(g);
        }
    }
    assert(nest(
        "code"@,
        group_field(e, "code"@),
        |g: Entries| code_from(g),
    )
        == Ok::<Option<CodeView>, ConfigErrorView>(v.code)) by {
        lemma_lookup_fields_wire(keys, values, 9);
        assert(keys[9] == "code"@);
        if let Some(g) = v.code {
            lemma_code_round_trip(g);
        }
    }
    assert(nest(
        "links"@,
        group_field(e, "links"@),
        |g: Entries| links_from(g),
    )
        == Ok::<Option<LinksView>, ConfigErrorView>(v.links)) by {
        lemma_lookup_fields_wire(keys, values, 10);
        assert(keys[10] == "links"@);
        if let Some(g) = v.links {
            lemma_links_round_trip(g);
        }
    }
}

/// Every key of the record that the entries hold has a value of its kind;
/// a nested record is well-typed in turn. Other keys may hold anything.
#[verifier::opaque]
pub open spec fn typography_well_typed(e: Entries) -> bool {
    &&& optional_fits(lookup(e, "fontSize"@), Expected::Text)
    &&& optional_fits(lookup(e, "lineHeight"@), Expected::Text)
    &&& optional_fits(lookup(e, "fontWeightRegular"@), Expected::Count)
    &&& optional_fits(lookup(e, "fontWeightBold"@), Expected::Count)
    &&& optional_fits(lookup(e, "fontWeightLight"@), Expected::Count)
    &&& optional_fits(lookup(e, "fontFamily"@), Expected::Text)
    &&& optional_fits(lookup(e, "smoothing"@), Expected::Text)
    &&& optional_fits(lookup(e, "optimizeSpeed"@), Expected::Flag)
    &&& match lookup(e, "headings"@) {
        None => true,
        Some(Json::Null) => true,
        Some(Json::Object(inner)) => headings_well_typed(inner),
        Some(_) => false,
    }
    &&& match lookup(e, "code"@) {
        None => true,
        Some(Json::Null) => true,
        Some(Json::Object(inner)) => code_well_typed(inner),
        Some(_) => false,
    }
    &&& match lookup(e, "links"@) {
        None => true,
        Some(Json::Null) => true,
        Some(Json::Object(inner)) => links_well_typed(inner),
        Some(_) => false,
    }
}

/// The record reads without error exactly when the entries are well-typed.
pub proof fn lemma_typography_reads_iff_well_typed(e: Entries)
    ensures
        typography_from(e) is Ok <==> typography_well_typed(e),
{
    reveal(typography_from);
    reveal(typography_well_typed);
    if let Some(Json::Object(inner)) = lookup(e, "headings"@) {
        lemma_headings_reads_iff_well_typed(inner);
    }
    if let Some(Json::Object(inner)) = lookup(e, "code"@) {
        lemma_code_reads_iff_well_typed(inner);
    }
    if let Some(Json::Object(inner)) = lookup(e, "links"@) {
        lemma_links_reads_iff_well_typed(inner);
    }
}

/// What entries can be read as when they hold no keys.
pub proof fn lemma_typography_empty()
    ensures
        typography_from(Seq::empty()) is Ok,
{
    reveal(lookup);
    reveal(typography_from);
}

/// A field of the wrong kind fails the whole record: nothing is read in part.
pub proof fn lemma_typography_wrong_field_fails(e: Entries)
    ensures
        (at("fontSize"@, text_field(e, "fontSize"@)) is Err
            || at("lineHeight"@, text_field(e, "lineHeight"@)) is Err
            || at("fontWeightRegular"@, count_field(e, "fontWeightRegular"@)) is Err
            || at("fontWeightBold"@, count_field(e, "fontWeightBold"@)) is Err
            || at("fontWeightLight"@, count_field(e, "fontWeightLight"@)) is Err
            || at("fontFamily"@, text_field(e, "fontFamily"@)) is Err
            || at("smoothing"@, text_field(e, "smoothing"@)) is Err
            || at("optimizeSpeed"@, flag_field(e, "optimizeSpeed"@)) is Err
            || nest(
        "headings"@,
        group_field(e, "headings"@),
        |g: Entries| headings_from(g),
    ) is Err
            || nest(
        "code"@,
        group_field(e, "code"@),
        |g: Entries| code_from(g),
    ) is Err
            || nest(
        "links"@,
        group_field(e, "links"@),
        |g: Entries| links_from(g),
    ) is Err)
            ==> typography_from(e) is Err,
{
    reveal(typography_from);
}

/// A failed read names a value of the entries that has the wrong kind.
pub proof fn lemma_typography_mismatch(e: Entries)
    requires
        typography_from(e) is Err,
    ensures
        names_mismatch(Json::Object(e), typography_from(e)->Err_0),
{
    if at("fontSize"@, text_field(e, "fontSize"@)) is Err {
        assert(typography_from(e)
            == Err::<TypographyView, ConfigErrorView>(at("fontSize"@, text_field(e, "fontSize"@))->Err_0)) by {
            reveal(typography_from);
        }
        lemma_leaf_mismatch(e, "fontSize"@, text_field(e, "fontSize"@)->Err_0);
    } else if at("lineHeight"@, text_field(e, "lineHeight"@)) is Err {
        assert(typography_from(e)
            == Err::<TypographyView, ConfigErrorView>(at("lineHeight"@, text_field(e, "lineHeight"@))->Err_0)) by {
            reveal(typography_from);
        }
        lemma_leaf_mismatch(e, "lineHeight"@, text_field(e, "lineHeight"@)->Err_0);
    } else if at("fontWeightRegular"@, count_field(e, "fontWeightRegular"@)) is Err {
        assert(typography_from(e)
            == Err::<TypographyView, ConfigErrorView>(at("fontWeightRegular"@, count_field(e, "fontWeightRegular"@))->Err_0)) by {
            reveal(typography_from);
        }
        lemma_leaf_mismatch(e, "fontWeightRegular"@, count_field(e, "fontWeightRegular"@)->Err_0);
    } else if at("fontWeightBold"@, count_field(e, "fontWeightBold"@)) is Err {
        assert(typography_from(e)
            == Err::<TypographyView, ConfigErrorView>(at("fontWeightBold"@, count_field(e, "fontWeightBold"@))->Err_0)) by {
            reveal(typography_from);
        }
        lemma_leaf_mismatch(e, "fontWeightBold"@, count_field(e, "fontWeightBold"@)->Err_0);
    } else if at("fontWeightLight"@, count_field(e, "fontWeightLight"@)) is Err {
        assert(typography_from(e)
            == Err::<TypographyView, ConfigErrorView>(at("fontWeightLight"@, count_field(e, "fontWeightLight"@))->Err_0)) by {
            reveal(typography_from);
        }
        lemma_leaf_mismatch(e, "fontWeightLight"@, count_field(e, "fontWeightLight"@)->Err_0);
    } else if at("fontFamily"@, text_field(e, "fontFamily"@)) is Err {
        assert(typography_from(e)
            == Err::<TypographyView, ConfigErrorView>(at("fontFamily"@, text_field(e, "fontFamily"@))->Err_0)) by {
            reveal(typography_from);
        }
        lemma_leaf_mismatch(e, "fontFamily"@, text_field(e, "fontFamily"@)->Err_0);
    } else if at("smoothing"@, text_field(e, "smoothing"@)) is Err {
        assert(typography_from(e)
            == Err::<TypographyView, ConfigErrorView>(at("smoothing"@, text_field(e, "smoothing"@))->Err_0)) by {
            reveal(typography_from);
        }
        lemma_leaf_mismatch(e, "smoothing"@, text_field(e, "smoothing"@)->Err_0);
    } else {
        lemma_typography_mismatch_after_7(e);
    }
}

proof fn lemma_typography_mismatch_after_7(e: Entries)
    requires
        typography_from(e) is Err,
        at("fontSize"@, text_field(e, "fontSize"@)) is Ok,
        at("lineHeight"@, text_field(e, "lineHeight"@)) is Ok,
        at("fontWeightRegular"@, count_field(e, "fontWeightRegular"@)) is Ok,
        at("fontWeightBold"@, count_field(e, "fontWeightBold"@)) is Ok,
        at("fontWeightLight"@, count_field(e, "fontWeightLight"@)) is Ok,
        at("fontFamily"@, text_field(e, "fontFamily"@)) is Ok,
        at("smoothing"@, text_field(e, "smoothing"@)) is Ok,
    ensures
        names_mismatch(Json::Object(e), typography_from(e)->Err_0),
{
    if at("optimizeSpeed"@, flag_field(e, "optimizeSpeed"@)) is Err {
        assert(typography_from(e)
            == Err::<TypographyView, ConfigErrorView>(at("optimizeSpeed"@, flag_field(e, "optimizeSpeed"@))->Err_0)) by {
            reveal(typography_from);
        }
        lemma_leaf_mismatch(e, "optimizeSpeed"@, flag_field(e, "optimizeSpeed"@)->Err_0);
    } else if nest(
        "headings"@,
        group_field(e, "headings"@),
        |g: Entries| headings_from(g),
    ) is Err {
        assert(typography_from(e)
            == Err::<TypographyView, ConfigErrorView>(nest(
        "headings"@,
        group_field(e, "headings"@),
        |g: Entries| headings_from(g),
    )->Err_0)) by {
            reveal(typography_from);
        }
        if group_field(e, "headings"@) is Err {
            lemma_leaf_mismatch(e, "headings"@, group_field(e, "headings"@)->Err_0);
        } else {
            let inner = group_field(e, "headings"@)->Ok_0->Some_0;
            lemma_headings_mismatch(inner);
            lemma_nested_mismatch(e, "headings"@, inner, headings_from(inner)->Err_0);
        }
    } else if nest(
        "code"@,
        group_field(e, "code"@),
        |g: Entries| code_from(g),
    ) is Err {
        assert(typography_from(e)
            == Err::<TypographyView, ConfigErrorView>(nest(
        "code"@,
        group_field(e, "code"@),
        |g: Entries| code_from(g),
    )->Err_0)) by {
            reveal(typography_from);
        }
        if group_field(e, "code"@) is Err {
            lemma_leaf_mismatch(e, "code"@, group_field(e, "code"@)->Err_0);
        } else {
            let inner = group_field(e, "code"@)->Ok_0->Some_0;
            lemma_code_mismatch(inner);
            lemma_nested_mismatch(e, "code"@, inner, code_from(inner)->Err_0);
        }
    } else if nest(
        "links"@,
        group_field(e, "links"@),
        |g: Entries| links_from(g),
    ) is Err {
        assert(typography_from(e)
            == Err::<TypographyView, ConfigErrorView>(nest(
        "links"@,
        group_field(e, "links"@),
        |g: Entries| links_from(g),
    )->Err_0)) by {
            reveal(typography_from);
        }
        if group_field(e, "links"@) is Err {
            lemma_leaf_mismatch(e, "links"@, group_field(e, "links"@)->Err_0);
        } else {
            let inner = group_field(e, "links"@)->Ok_0->Some_0;
            lemma_links_mismatch(inner);
            lemma_nested_mismatch(e, "links"@, inner, links_from(inner)->Err_0);
        }
    } else {
        assert(typography_from(e) is Ok) by {
            reveal(typography_from);
        }
    }
}

impl Typography {
    /// Reads the record from the entries of an object. Unknown keys are ignored.
    pub fn from_entries(entries: &Vec<(String, Value)>) -> (r: Result<Typography, ConfigError>)
        ensures
            match r {
                Ok(v) => typography_from(entries_view(entries@)) == Ok::<TypographyView, ConfigErrorView>(v@),
                Err(e) => typography_from(entries_view(entries@)) == Err::<TypographyView, ConfigErrorView>(e@),
            },
    {
        proof {
            reveal(typography_from);
        }
        let font_size = match read_text(entries, "fontSize") {
            Ok(x) => x,
            Err(kind) => return Err(ConfigError::leaf("fontSize", kind)),
        };
        let line_height = match read_text(entries, "lineHeight") {
            Ok(x) => x,
            Err(kind) => return Err(ConfigError::leaf("lineHeight", kind)),
        };
        let font_weight_regular = match read_count(entries, "fontWeightRegular") {
            Ok(x) => x,
            Err(kind) => return Err(ConfigError::leaf("fontWeightRegular", kind)),
        };
        let font_weight_bold = match read_count(entries, "fontWeightBold") {
            Ok(x) => x,
            Err(kind) => return Err(ConfigError::leaf("fontWeightBold", kind)),
        };
        let font_weight_light = match read_count(entries, "fontWeightLight") {
            Ok(x) => x,
            Err(kind) => return Err(ConfigError::leaf("fontWeightLight", kind)),
        };
        let font_family = match read_text(entries, "fontFamily") {
            Ok(x) => x,
            Err(kind) => return Err(ConfigError::leaf("fontFamily", kind)),
        };
        let smoothing = match read_text(entries, "smoothing") {
            Ok(x) => x,
            Err(kind) => return Err(ConfigError::leaf("smoothing", kind)),
        };
        let optimize_speed = match read_flag(entries, "optimizeSpeed") {
            Ok(x) => x,
            Err(kind) => return Err(ConfigError::leaf("optimizeSpeed", kind)),
        };
        let headings = match read_group(entries, "headings") {
            Ok(Some(inner)) => match Headings::from_entries(inner) {
                Ok(g) => Some(g),
                Err(e) => return Err(e.within("headings")),
            },
            Ok(None) => None,
            Err(kind) => return Err(ConfigError::leaf("headings", kind)),
        };
        let code = match read_group(entries, "code") {
            Ok(Some(inner)) => match Code::from_entries(inner) {
                Ok(g) => Some(g),
                Err(e) => return Err(e.within("code")),
            },
            Ok(None) => None,
            Err(kind) => return Err(ConfigError::leaf("code", kind)),
        };
        let links = match read_group(entries, "links") {
            Ok(Some(inner)) => match Links::from_entries(inner) {
                Ok(g) => Some(g),
                Err(e) => return Err(e.within("links")),
            },
            Ok(None) => None,
            Err(kind) => return Err(ConfigError::leaf("links", kind)),
        };
        Ok(Typography { font_size, line_height, font_weight_regular, font_weight_bold, font_weight_light, font_family, smoothing, optimize_speed, headings, code, links })
    }

    /// Writes the record as the entries of an object: each set field under its
    /// key, in field order.
    pub fn to_entries(&self) -> (r: Vec<(String, Value)>)
        ensures
            entries_view(r@) == typography_wire(self@),
    {
        let keys: [&str; 11] = ["fontSize", "lineHeight", "fontWeightRegular", "fontWeightBold", "fontWeightLight", "fontFamily", "smoothing", "optimizeSpeed", "headings", "code", "links"];
        let values: Vec<Option<Value>> = vec![
            text_value(&self.font_size),
            text_value(&self.line_height),
            count_value(self.font_weight_regular),
            count_value(self.font_weight_bold),
            count_value(self.font_weight_light),
            text_value(&self.font_family),
            text_value(&self.smoothing),
            flag_value(self.optimize_speed),
            match &self.headings {
                Some(g) => Some(object_value(g.to_entries())),
                None => None,
            },
            match &self.code {
                Some(g) => Some(object_value(g.to_entries())),
                None => None,
            },
            match &self.links {
                Some(g) => Some(object_value(g.to_entries())),
                None => None,
            },
        ];
        assert(keys@.map_values(|k: &str| k@) =~= typography_keys());
        assert(opt_views(values@) =~= typography_values(self@));
        entries_of(&keys, values)
    }
}

impl Default for Typography {
    /// What an empty object reads as.
    fn default() -> (r: Typography)
        ensures
            typography_from(Seq::empty()) == Ok::<TypographyView, ConfigErrorView>(r@),
    {
        proof {
            reveal(lookup);
            reveal(typography_from);
        }
        Typography {
            font_size: None,
            line_height: None,
            font_weight_regular: None,
            font_weight_bold: None,
            font_weight_light: None,
            font_family: None,
            smoothing: None,
            optimize_speed: None,
            headings: None,
            code: None,
            links: None,
        }
    }
}

/// Menu entries that group operations.
#[derive(Debug, Clone, PartialEq)]
pub struct GroupItems {
    pub text_transform: Option<String>,
}

pub struct GroupItemsView {
    pub text_transform: Option<Seq<char>>,
}

impl View for GroupItems {
    type V = GroupItemsView;

    open spec fn view(&self) -> GroupItemsView {
        GroupItemsView {
            text_transform: self.text_transform.deep_view(),
        }
    }
}

pub open spec fn group_items_keys() -> Seq<Seq<char>> {
    seq!["textTransform"@]
}

/// The record that the entries of an object denote, or the first field, in
/// field order, that has the wrong kind.
#[verifier::opaque]
pub open spec fn group_items_from(e: Entries) -> Result<GroupItemsView, ConfigErrorView> {
    let text_transform = at("textTransform"@, text_field(e, "textTransform"@));
    if text_transform is Err {
        Err(text_transform->Err_0)
    } else {
        Ok(
            GroupItemsView {
                text_transform: text_transform->Ok_0,
            },
        )
    }
}

/// The value of each field in wire form, in field order; `None` for an unset
/// field.
pub open spec fn group_items_values(v: GroupItemsView) -> Seq<Option<Json>> {
    seq![
        text_json(v.text_transform),
    ]
}

/// The entries that the record is written as: its set fields, in field order.
pub open spec fn group_items_wire(v: GroupItemsView) -> Entries {
    fields_wire(group_items_keys(), group_items_values(v))
}

pub proof fn lemma_group_items_keys()
    ensures
        distinct_keys(group_items_keys()),
{
    reveal_strlit("textTransform");
    assert("textTransform"@.len() == 13);
}

/// A record written as entries reads back as itself.
pub proof fn lemma_group_items_round_trip(v: GroupItemsView)
    ensures
        group_items_from(group_items_wire(v))
            == Ok::<GroupItemsView, ConfigErrorView>(v),
{
    reveal(group_items_from);
    let e = group_items_wire(v);
    let keys = group_items_keys();
    let values = group_items_values(v);
    lemma_group_items_keys();
    assert(at("textTransform"@, text_field(e, "textTransform"@))
        == Ok::<Option<Seq<char>>, ConfigErrorView>(v.text_transform)) by {
        lemma_lookup_fields_wire(keys, values, 0);
        assert(keys[0] == "textTransform"@);
    }
}

/// Every key of the record that the entries hold has a value of its kind;
/// a nested record is well-typed in turn. Other keys may hold anything.
#[verifier::opaque]
pub open spec fn group_items_well_typed(e: Entries) -> bool {
    &&& optional_fits(lookup(e, "textTransform"@), Expected::Text)
}

/// The record reads without error exactly when the entries are well-typed.
pub proof fn lemma_group_items_reads_iff_well_typed(e: Entries)
    ensures
        group_items_from(e) is Ok <==> group_items_well_typed(e),
{
    reveal(group_items_from);
    reveal(group_items_well_typed);
}

/// What entries can be read as when they hold no keys.
pub proof fn lemma_group_items_empty()
    ensures
        group_items_from(Seq::empty()) is Ok,
{
    reveal(lookup);
    reveal(group_items_from);
}

/// A field of the wrong kind fails the whole record: nothing is read in part.
pub proof fn lemma_group_items_wrong_field_fails(e: Entries)
    ensures
        (at("textTransform"@, text_field(e, "textTransform"@)) is Err)
            ==> group_items_from(e) is Err,
{
    reveal(group_items_from);
}

/// A failed read names a value of the entries that has the wrong kind.
pub proof fn lemma_group_items_mismatch(e: Entries)
    requires
        group_items_from(e) is Err,
    ensures
        names_mismatch(Json::Object(e), group_items_from(e)->Err_0),
{
    if at("textTransform"@, text_field(e, "textTransform"@)) is Err {
        assert(group_items_from(e)
            == Err::<GroupItemsView, ConfigErrorView>(at("textTransform"@, text_field(e, "textTransform"@))->Err_0)) by {
            reveal(group_items_from);
        }
        lemma_leaf_mismatch(e, "textTransform"@, text_field(e, "textTransform"@)->Err_0);
    } else {
        assert(group_items_from(e) is Ok) by {
            reveal(group_items_from);
        }
    }
}

impl GroupItems {
    /// Reads the record from the entries of an object. Unknown keys are ignored.
    pub fn from_entries(entries: &Vec<(String, Value)>) -> (r: Result<GroupItems, ConfigError>)
        ensures
            match r {
                Ok(v) => group_items_from(entries_view(entries@)) == Ok::<GroupItemsView, ConfigErrorView>(v@),
                Err(e) => group_items_from(entries_view(entries@)) == Err::<GroupItemsView, ConfigErrorView>(e@),
            },
    {
        proof {
            reveal(group_items_from);
        }
        let text_transform = match read_text(entries, "textTransform") {
            Ok(x) => x,
            Err(kind) => return Err(ConfigError::leaf("textTransform", kind)),
        };
        Ok(GroupItems { text_transform })
    }

    /// Writes the record as the entries of an object: each set field under its
    /// key, in field order.
    pub fn to_entries(&self) -> (r: Vec<(String, Value)>)
        ensures
            entries_view(r@) == group_items_wire(self@),
    {
        let keys: [&str; 1] = ["textTransform"];
        let values: Vec<Option<Value>> = vec![
            text_value(&self.text_transform),
        ];
        assert(keys@.map_values(|k: &str| k@) =~= group_items_keys());
        assert(opt_views(values@) =~= group_items_values(self@));
        entries_of(&keys, values)
    }
}

impl Default for GroupItems {
    /// What an empty object reads as.
    fn default() -> (r: GroupItems)
        ensures
            group_items_from(Seq::empty()) == Ok::<GroupItemsView, ConfigErrorView>(r@),
    {
        proof {
            reveal(lookup);
            reveal(group_items_from);
        }
        GroupItems {
            text_transform: None,
        }
    }
}

/// Top-level menu entries.
#[derive(Debug, Clone, PartialEq)]
pub struct Level1Items {
    pub text_transform: Option<String>,
}

pub struct Level1ItemsView {
    pub text_transform: Option<Seq<char>>,
}

impl View for Level1Items {
    type V = Level1ItemsView;

    open spec fn view(&self) -> Level1ItemsView {
        Level1ItemsView {
            text_transform: self.text_transform.deep_view(),
        }
    }
}

pub open spec fn level1_items_keys() -> Seq<Seq<char>> {
    seq!["textTransform"@]
}

/// The record that the entries of an object denote, or the first field, in
/// field order, that has the wrong kind.
#[verifier::opaque]
pub open spec fn level1_items_from(e: Entries) -> Result<Level1ItemsView, ConfigErrorView> {
    let text_transform = at("textTransform"@, text_field(e, "textTransform"@));
    if text_transform is Err {
        Err(text_transform->Err_0)
    } else {
        Ok(
            Level1ItemsView {
                text_transform: text_transform->Ok_0,
            },
        )
    }
}

/// The value of each field in wire form, in field order; `None` for an unset
/// field.
pub open spec fn level1_items_values(v: Level1ItemsView) -> Seq<Option<Json>> {
    seq![
        text_json(v.text_transform),
    ]
}

/// The entries that the record is written as: its set fields, in field order.
pub open spec fn level1_items_wire(v: Level1ItemsView) -> Entries {
    fields_wire(level1_items_keys(), level1_items_values(v))
}

pub proof fn lemma_level1_items_keys()
    ensures
        distinct_keys(level1_items_keys()),
{
    reveal_strlit("textTransform");
    assert("textTransform"@.len() == 13);
}

/// A record written as entries reads back as itself.
pub proof fn lemma_level1_items_round_trip(v: Level1ItemsView)
    ensures
        level1_items_from(level1_items_wire(v))
            == Ok::<Level1ItemsView, ConfigErrorView>(v),
{
    reveal(level1_items_from);
    let e = level1_items_wire(v);
    let keys = level1_items_keys();
    let values = level1_items_values(v);
    lemma_level1_items_keys();
    assert(at("textTransform"@, text_field(e, "textTransform"@))
        == Ok::<Option<Seq<char>>, ConfigErrorView>(v.text_transform)) by {
        lemma_lookup_fields_wire(keys, values, 0);
        assert(keys[0] == "textTransform"@);
    }
}

/// Every key of the record that the entries hold has a value of its kind;
/// a nested record is well-typed in turn. Other keys may hold anything.
#[verifier::opaque]
pub open spec fn level1_items_well_typed(e: Entries) -> bool {
    &&& optional_fits(lookup(e, "textTransform"@), Expected::Text)
}

/// The record reads without error exactly when the entries are well-typed.
pub proof fn lemma_level1_items_reads_iff_well_typed(e: Entries)
    ensures
        level1_items_from(e) is Ok <==> level1_items_well_typed(e),
{
    reveal(level1_items_from);
    reveal(level1_items_well_typed);
}

/// What entries can be read as when they hold no keys.
pub proof fn lemma_level1_items_empty()
    ensures
        level1_items_from(Seq::empty()) is Ok,
{
    reveal(lookup);
    reveal(level1_items_from);
}

/// A field of the wrong kind fails the whole record: nothing is read in part.
pub proof fn lemma_level1_items_wrong_field_fails(e: Entries)
    ensures
        (at("textTransform"@, text_field(e, "textTransform"@)) is Err)
            ==> level1_items_from(e) is Err,
{
    reveal(level1_items_from);
}

/// A failed read names a value of the entries that has the wrong kind.
pub proof fn lemma_level1_items_mismatch(e: Entries)
    requires
        level1_items_from(e) is Err,
    ensures
        names_mismatch(Json::Object(e), level1_items_from(e)->Err_0),
{
    if at("textTransform"@, text_field(e, "textTransform"@)) is Err {
        assert(level1_items_from(e)
            == Err::<Level1ItemsView, ConfigErrorView>(at("textTransform"@, text_field(e, "textTransform"@))->Err_0)) by {
            reveal(level1_items_from);
        }
        lemma_leaf_mismatch(e, "textTransform"@, text_field(e, "textTransform"@)->Err_0);
    } else {
        assert(level1_items_from(e) is Ok) by {
            reveal(level1_items_from);
        }
    }
}

impl Level1Items {
    /// Reads the record from the entries of an object. Unknown keys are ignored.
    pub fn from_entries(entries: &Vec<(String, Value)>) -> (r: Result<Level1Items, ConfigError>)
        ensures
            match r {
                Ok(v) => level1_items_from(entries_view(entries@)) == Ok::<Level1ItemsView, ConfigErrorView>(v@),
                Err(e) => level1_items_from(entries_view(entries@)) == Err::<Level1ItemsView, ConfigErrorView>(e@),
            },
    {
        proof {
            reveal(level1_items_from);
        }
        let text_transform = match read_text(entries, "textTransform") {
            Ok(x) => x,
            Err(kind) => return Err(ConfigError::leaf("textTransform", kind)),
        };
        Ok(Level1Items { text_transform })
    }

    /// Writes the record as the entries of an object: each set field under its
    /// key, in field order.
    pub fn to_entries(&self) -> (r: Vec<(String, Value)>)
        ensures
            entries_view(r@) == level1_items_wire(self@),
    {
        let keys: [&str; 1] = ["textTransform"];
        let values: Vec<Option<Value>> = vec![
            text_value(&self.text_transform),
        ];
        assert(keys@.map_values(|k: &str| k@) =~= level1_items_keys());
        assert(opt_views(values@) =~= level1_items_values(self@));
        entries_of(&keys, values)
    }
}

impl Default for Level1Items {
    /// What an empty object reads as.
    fn default() -> (r: Level1Items)
        ensures
            level1_items_from(Seq::empty()) == Ok::<Level1ItemsView, ConfigErrorView>(r@),
    {
        proof {
            reveal(lookup);
            reveal(level1_items_from);
        }
        Level1Items {
            text_transform: None,
        }
    }
}

/// The arrow of expandable menu entries.
#[derive(Debug, Clone, PartialEq)]
pub struct Arrow {
    pub size: Option<String>,
    pub color: Option<String>,
}

pub struct ArrowView {
    pub size: Option<Seq<char>>,
    pub color: Option<Seq<char>>,
}

impl View for Arrow {
    type V = ArrowView;

    open spec fn view(&self) -> ArrowView {
        ArrowView {
            size: self.size.deep_view(),
            color: self.color.deep_view(),
        }
    }
}

pub open spec fn arrow_keys() -> Seq<Seq<char>> {
    seq!["size"@, "color"@]
}

/// The record that the entries of an object denote, or the first field, in
/// field order, that has the wrong kind.
#[verifier::opaque]
pub open spec fn arrow_from(e: Entries) -> Result<ArrowView, ConfigErrorView> {
    let size = at("size"@, text_field(e, "size"@));
    let color = at("color"@, text_field(e, "color"@));
    if size is Err {
        Err(size->Err_0)
    } else if color is Err {
        Err(color->Err_0)
    } else {
        Ok(
            ArrowView {
                size: size->Ok_0,
                color: color->Ok_0,
            },
        )
    }
}

/// The value of each field in wire form, in field order; `None` for an unset
/// field.
pub open spec fn arrow_values(v: ArrowView) -> Seq<Option<Json>> {
    seq![
        text_json(v.size),
        text_json(v.color),
    ]
}

/// The entries that the record is written as: its set fields, in field order.
pub open spec fn arrow_wire(v: ArrowView) -> Entries {
    fields_wire(arrow_keys(), arrow_values(v))
}

pub proof fn lemma_arrow_keys()
    ensures
        distinct_keys(arrow_keys()),
{
    reveal_strlit("size");
    reveal_strlit("color");
    assert("size"@.len() == 4);
    assert("color"@.len() == 5);
}

/// A record written as entries reads back as itself.
pub proof fn lemma_arrow_round_trip(v: ArrowView)
    ensures
        arrow_from(arrow_wire(v))
            == Ok::<ArrowView, ConfigErrorView>(v),
{
    reveal(arrow_from);
    let e = arrow_wire(v);
    let keys = arrow_keys();
    let values = arrow_values(v);
    lemma_arrow_keys();
    assert(at("size"@, text_field(e, "size"@))
        == Ok::<Option<Seq<char>>, ConfigErrorView>(v.size)) by {
        lemma_lookup_fields_wire(keys, values, 0);
        assert(keys[0] == "size"@);
    }
    assert(at("color"@, text_field(e, "color"@))
        == Ok::<Option<Seq<char>>, ConfigErrorView>(v.color)) by {
        lemma_lookup_fields_wire(keys, values, 1);
        assert(keys[1] == "color"@);
    }
}

/// Every key of the record that the entries hold has a value of its kind;
/// a nested record is well-typed in turn. Other keys may hold anything.
#[verifier::opaque]
pub open spec fn arrow_well_typed(e: Entries) -> bool {
    &&& optional_fits(lookup(e, "size"@), Expected::Text)
    &&& optional_fits(lookup(e, "color"@), Expected::Text)
}

/// The record reads without error exactly when the entries are well-typed.
pub proof fn lemma_arrow_reads_iff_well_typed(e: Entries)
    ensures
        arrow_from(e) is Ok <==> arrow_well_typed(e),
{
    reveal(arrow_from);
    reveal(arrow_well_typed);
}

/// What entries can be read as when they hold no keys.
pub proof fn lemma_arrow_empty()
    ensures
        arrow_from(Seq::empty()) is Ok,
{
    reveal(lookup);
    reveal(arrow_from);
}

/// A field of the wrong kind fails the whole record: nothing is read in part.
pub proof fn lemma_arrow_wrong_field_fails(e: Entries)
    ensures
        (at("size"@, text_field(e, "size"@)) is Err
            || at("color"@, text_field(e, "color"@)) is Err)
            ==> arrow_from(e) is Err,
{
    reveal(arrow_from);
}

/// A failed read names a value of the entries that has the wrong kind.
pub proof fn lemma_arrow_mismatch(e: Entries)
    requires
        arrow_from(e) is Err,
    ensures
        names_mismatch(Json::Object(e), arrow_from(e)->Err_0),
{
    if at("size"@, text_field(e, "size"@)) is Err {
        assert(arrow_from(e)
            == Err::<ArrowView, ConfigErrorView>(at("size"@, text_field(e, "size"@))->Err_0)) by {
            reveal(arrow_from);
        }
        lemma_leaf_mismatch(e, "size"@, text_field(e, "size"@)->Err_0);
    } else if at("color"@, text_field(e, "color"@)) is Err {
        assert(arrow_from(e)
            == Err::<ArrowView, ConfigErrorView>(at("color"@, text_field(e, "color"@))->Err_0)) by {
            reveal(arrow_from);
        }
        lemma_leaf_mismatch(e, "color"@, text_field(e, "color"@)->Err_0);
    } else {
        assert(arrow_from(e) is Ok) by {
            reveal(arrow_from);
        }
    }
}

impl Arrow {
    /// Reads the record from the entries of an object. Unknown keys are ignored.
    pub fn from_entries(entries: &Vec<(String, Value)>) -> (r: Result<Arrow, ConfigError>)
        ensures
            match r {
                Ok(v) => arrow_from(entries_view(entries@)) == Ok::<ArrowView, ConfigErrorView>(v@),
                Err(e) => arrow_from(entries_view(entries@)) == Err::<ArrowView, ConfigErrorView>(e@),
            },
    {
        proof {
            reveal(arrow_from);
        }
        let size = match read_text(entries, "size") {
            Ok(x) => x,
            Err(kind) => return Err(ConfigError::leaf("size", kind)),
        };
        let color = match read_text(entries, "color") {
            Ok(x) => x,
            Err(kind) => return Err(ConfigError::leaf("color", kind)),
        };
        Ok(Arrow { size, color })
    }

    /// Writes the record as the entries of an object: each set field under its
    /// key, in field order.
    pub fn to_entries(&self) -> (r: Vec<(String, Value)>)
        ensures
            entries_view(r@) == arrow_wire(self@),
    {
        let keys: [&str; 2] = ["size", "color"];
        let values: Vec<Option<Value>> = vec![
            text_value(&self.size),
            text_value(&self.color),
        ];
        assert(keys@.map_values(|k: &str| k@) =~= arrow_keys());
        assert(opt_views(values@) =~= arrow_values(self@));
        entries_of(&keys, values)
    }
}

impl Default for Arrow {
    /// What an empty object reads as.
    fn default() -> (r: Arrow)
        ensures
            arrow_from(Seq::empty()) == Ok::<ArrowView, ConfigErrorView>(r@),
    {
        proof {
            reveal(lookup);
            reveal(arrow_from);
        }
        Arrow {
            size: None,
            color: None,
        }
    }
}

/// The side menu.
#[derive(Debug, Clone, PartialEq)]
pub struct Menu {
    pub width: Option<String>,
    pub background_color: Option<String>,
    pub text_color: Option<String>,
    pub active_text_color: Option<String>,
    pub group_items: Option<GroupItems>,
    pub level1_items: Option<Level1Items>,
    pub arrow: Option<Arrow>,
}

pub struct MenuView {
    pub width: Option<Seq<char>>,
    pub background_color: Option<Seq<char>>,
    pub text_color: Option<Seq<char>>,
    pub active_text_color: Option<Seq<char>>,
    pub group_items: Option<GroupItemsView>,
    pub level1_items: Option<Level1ItemsView>,
    pub arrow: Option<ArrowView>,
}

impl View for Menu {
    type V = MenuView;

    open spec fn view(&self) -> MenuView {
        MenuView {
            width: self.width.deep_view(),
            background_color: self.background_color.deep_view(),
            text_color: self.text_color.deep_view(),
            active_text_color: self.active_text_color.deep_view(),
            group_items: match self.group_items {
                Some(g) => Some(g@),
                None => None,
            },
            level1_items: match self.level1_items {
                Some(g) => Some(g@),
                None => None,
            },
            arrow: match self.arrow {
                Some(g) => Some(g@),
                None => None,
            },
        }
    }
}

pub open spec fn menu_keys() -> Seq<Seq<char>> {
    seq![
        "width"@,
        "backgroundColor"@,
        "textColor"@,
        "activeTextColor"@,
        "groupItems"@,
        "level1Items"@,
        "arrow"@,
    ]
}

/// The record that the entries of an object denote, or the first field, in
/// field order, that has the wrong kind.
#[verifier::opaque]
pub open spec fn menu_from(e: Entries) -> Result<MenuView, ConfigErrorView> {
    let width = at("width"@, text_field(e, "width"@));
    let background_color = at("backgroundColor"@, text_field(e, "backgroundColor"@));
    let text_color = at("textColor"@, text_field(e, "textColor"@));
    let active_text_color = at("activeTextColor"@, text_field(e, "activeTextColor"@));
    let group_items = nest(
        "groupItems"@,
        group_field(e, "groupItems"@),
        |g: Entries| group_items_from(g),
    );
    let level1_items = nest(
        "level1Items"@,
        group_field(e, "level1Items"@),
        |g: Entries| level1_items_from(g),
    );
    let arrow = nest(
        "arrow"@,
        group_field(e, "arrow"@),
        |g: Entries| arrow_from(g),
    );
    if width is Err {
        Err(width->Err_0)
    } else if background_color is Err {
        Err(background_color->Err_0)
    } else if text_color is Err {
        Err(text_color->Err_0)
    } else if active_text_color is Err {
        Err(active_text_color->Err_0)
    } else if group_items is Err {
        Err(group_items->Err_0)
    } else if level1_items is Err {
        Err(level1_items->Err_0)
    } else if arrow is Err {
        Err(arrow->Err_0)
    } else {
        Ok(
            MenuView {
                width: width->Ok_0,
                background_color: background_color->Ok_0,
                text_color: text_color->Ok_0,
                active_text_color: active_text_color->Ok_0,
                group_items: group_items->Ok_0,
                level1_items: level1_items->Ok_0,
                arrow: arrow->Ok_0,
            },
        )
    }
}

/// The value of each field in wire form, in field order; `None` for an unset
/// field.
pub open spec fn menu_values(v: MenuView) -> Seq<Option<Json>> {
    seq![
        text_json(v.width),
        text_json(v.background_color),
        text_json(v.text_color),
        text_json(v.active_text_color),
        match v.group_items {
            Some(g) => Some(Json::Object(group_items_wire(g))),
            None => None,
        },
        match v.level1_items {
            Some(g) => Some(Json::Object(level1_items_wire(g))),
            None => None,
        },
        match v.arrow {
            Some(g) => Some(Json::Object(arrow_wire(g))),
            None => None,
        },
    ]
}

/// The entries that the record is written as: its set fields, in field order.
pub open spec fn menu_wire(v: MenuView) -> Entries {
    fields_wire(menu_keys(), menu_values(v))
}

pub proof fn lemma_menu_keys()
    ensures
        distinct_keys(menu_keys()),
{
    reveal_strlit("width");
    reveal_strlit("backgroundColor");
    reveal_strlit("textColor");
    reveal_strlit("activeTextColor");
    reveal_strlit("groupItems");
    reveal_strlit("level1Items");
    reveal_strlit("arrow");
    assert("width"@.len() == 5);
    assert("backgroundColor"@.len() == 15);
    assert("textColor"@.len() == 9);
    assert("activeTextColor"@.len() == 15);
    assert("groupItems"@.len() == 10);
    assert("level1Items"@.len() == 11);
    assert("arrow"@.len() == 5);
    assert("width"@[0] != "arrow"@[0]);
    assert("backgroundColor"@[0] != "activeTextColor"@[0]);
}

/// A record written as entries reads back as itself.
pub proof fn lemma_menu_round_trip(v: MenuView)
    ensures
        menu_from(menu_wire(v))
            == Ok::<MenuView, ConfigErrorView>(v),
{
    reveal(menu_from);
    let e = menu_wire(v);
    let keys = menu_keys();
    let values = menu_values(v);
    lemma_menu_keys();
    assert(at("width"@, text_field(e, "width"@))
        == Ok::<Option<Seq<char>>, ConfigErrorView>(v.width)) by {
        lemma_lookup_fields_wire(keys, values, 0);
        assert(keys[0] == "width"@);
    }
    assert(at("backgroundColor"@, text_field(e, "backgroundColor"@))
        == Ok::<Option<Seq<char>>, ConfigErrorView>(v.background_color)) by {
        lemma_lookup_fields_wire(keys, values, 1);
        assert(keys[1] == "backgroundColor"@);
    }
    assert(at("textColor"@, text_field(e, "textColor"@))
        == Ok::<Option<Seq<char>>, ConfigErrorView>(v.text_color)) by {
        lemma_lookup_fields_wire(keys, values, 2);
        assert(keys[2] == "textColor"@);
    }
    assert(at("activeTextColor"@, text_field(e, "activeTextColor"@))
        == Ok::<Option<Seq<char>>, ConfigErrorView>(v.active_text_color)) by {
        lemma_lookup_fields_wire(keys, values, 3);
        assert(keys[3] == "activeTextColor"@);
    }
    assert(nest(
        "groupItems"@,
        group_field(e, "groupItems"@),
        |g: Entries| group_items_from(g),
    )
        == Ok::<Option<GroupItemsView>, ConfigErrorView>(v.group_items)) by {
        lemma_lookup_fields_wire(keys, values, 4);
        assert(keys[4] == "groupItems"@);
        if let Some(g) = v.group_items {
            lemma_group_items_round_trip(g);
        }
    }
    assert(nest(
        "level1Items"@,
        group_field(e, "level1Items"@),
        |g: Entries| level1_items_from(g),
    )
        == Ok::<Option<Level1ItemsView>, ConfigErrorView>(v.level1_items)) by {
        lemma_lookup_fields_wire(keys, values, 5);
        assert(keys[5] == "level1Items"@);
        if let Some(g) = v.level1_items {
            lemma_level1_items_round_trip(g);
        }
    }
    assert(nest(
        "arrow"@,
        group_field(e, "arrow"@),
        |g: Entries| arrow_from(g),
    )
        == Ok::<Option<ArrowView>, ConfigErrorView>(v.arrow)) by {
        lemma_lookup_fields_wire(keys, values, 6);
        assert(keys[6] == "arrow"@);
        if let Some(g) = v.arrow {
            lemma_arrow_round_trip(g);
        }
    }
}

/// Every key of the record that the entries hold has a value of its kind;
/// a nested record is well-typed in turn. Other keys may hold anything.
#[verifier::opaque]
pub open spec fn menu_well_typed(e: Entries) -> bool {
    &&& optional_fits(lookup(e, "width"@), Expected::Text)
    &&& optional_fits(lookup(e, "backgroundColor"@), Expected::Text)
    &&& optional_fits(lookup(e, "textColor"@), Expected::Text)
    &&& optional_fits(lookup(e, "activeTextColor"@), Expected::Text)
    &&& match lookup(e, "groupItems"@) {
        None => true,
        Some(Json::Null) => true,
        Some(Json::Object(inner)) => group_items_well_typed(inner),
        Some(_) => false,
    }
    &&& match lookup(e, "level1Items"@) {
        None => true,
        Some(Json::Null) => true,
        Some(Json::Object(inner)) => level1_items_well_typed(inner),
        Some(_) => false,
    }
    &&& match lookup(e, "arrow"@) {
        None => true,
        Some(Json::Null) => true,
        Some(Json::Object(inner)) => arrow_well_typed(inner),
        Some(_) => false,
    }
}

/// The record reads without error exactly when the entries are well-typed.
pub proof fn lemma_menu_reads_iff_well_typed(e: Entries)
    ensures
        menu_from(e) is Ok <==> menu_well_typed(e),
{
    reveal(menu_from);
    reveal(menu_well_typed);
    if let Some(Json::Object(inner)) = lookup(e, "groupItems"@) {
        lemma_group_items_reads_iff_well_typed(inner);
    }
    if let Some(Json::Object(inner)) = lookup(e, "level1Items"@) {
        lemma_level1_items_reads_iff_well_typed(inner);
    }
    if let Some(Json::Object(inner)) = lookup(e, "arrow"@) {
        lemma_arrow_reads_iff_well_typed(inner);
    }
}

/// What entries can be read as when they hold no keys.
pub proof fn lemma_menu_empty()
    ensures
        menu_from(Seq::empty()) is Ok,
{
    reveal(lookup);
    reveal(menu_from);
}

/// A field of the wrong kind fails the whole record: nothing is read in part.
pub proof fn lemma_menu_wrong_field_fails(e: Entries)
    ensures
        (at("width"@, text_field(e, "width"@)) is Err
            || at("backgroundColor"@, text_field(e, "backgroundColor"@)) is Err
            || at("textColor"@, text_field(e, "textColor"@)) is Err
            || at("activeTextColor"@, text_field(e, "activeTextColor"@)) is Err
            || nest(
        "groupItems"@,
        group_field(e, "groupItems"@),
        |g: Entries| group_items_from(g),
    ) is Err
            || nest(
        "level1Items"@,
        group_field(e, "level1Items"@),
        |g: Entries| level1_items_from(g),
    ) is Err
            || nest(
        "arrow"@,
        group_field(e, "arrow"@),
        |g: Entries| arrow_from(g),
    ) is Err)
            ==> menu_from(e) is Err,
{
    reveal(menu_from);
}

/// A failed read names a value of the entries that has the wrong kind.
pub proof fn lemma_menu_mismatch(e: Entries)
    requires
        menu_from(e) is Err,
    ensures
        names_mismatch(Json::Object(e), menu_from(e)->Err_0),
{
    if at("width"@, text_field(e, "width"@)) is Err {
        assert(menu_from(e)
            == Err::<MenuView, ConfigErrorView>(at("width"@, text_field(e, "width"@))->Err_0)) by {
            reveal(menu_from);
        }
        lemma_leaf_mismatch(e, "width"@, text_field(e, "width"@)->Err_0);
    } else if at("backgroundColor"@, text_field(e, "backgroundColor"@)) is Err {
        assert(menu_from(e)
            == Err::<MenuView, ConfigErrorView>(at("backgroundColor"@, text_field(e, "backgroundColor"@))->Err_0)) by {
            reveal(menu_from);
        }
        lemma_leaf_mismatch(e, "backgroundColor"@, text_field(e, "backgroundColor"@)->Err_0);
    } else if at("textColor"@, text_field(e, "textColor"@)) is Err {
        assert(menu_from(e)
            == Err::<MenuView, ConfigErrorView>(at("textColor"@, text_field(e, "textColor"@))->Err_0)) by {
            reveal(menu_from);
        }
        lemma_leaf_mismatch(e, "textColor"@, text_field(e, "textColor"@)->Err_0);
    } else if at("activeTextColor"@, text_field(e, "activeTextColor"@)) is Err {
        assert(menu_from(e)
            == Err::<MenuView, ConfigErrorView>(at("activeTextColor"@, text_field(e, "activeTextColor"@))->Err_0)) by {
            reveal(menu_from);
        }
        lemma_leaf_mismatch(e, "activeTextColor"@, text_field(e, "activeTextColor"@)->Err_0);
    } else if nest(
        "groupItems"@,
        group_field(e, "groupItems"@),
        |g: Entries| group_items_from(g),
    ) is Err {
        assert(menu_from(e)
            == Err::<MenuView, ConfigErrorView>(nest(
        "groupItems"@,
        group_field(e, "groupItems"@),
        |g: Entries| group_items_from(g),
    )->Err_0)) by {
            reveal(menu_from);
        }
        if group_field(e, "groupItems"@) is Err {
            lemma_leaf_mismatch(e, "groupItems"@, group_field(e, "groupItems"@)->Err_0);
        } else {
            let inner = group_field(e, "groupItems"@)->Ok_0->Some_0;
            lemma_group_items_mismatch(inner);
            lemma_nested_mismatch(e, "groupItems"@, inner, group_items_from(inner)->Err_0);
        }
    } else if nest(
        "level1Items"@,
        group_field(e, "level1Items"@),
        |g: Entries| level1_items_from(g),
    ) is Err {
        assert(menu_from(e)
            == Err::<MenuView, ConfigErrorView>(nest(
        "level1Items"@,
        group_field(e, "level1Items"@),
        |g: Entries| level1_items_from(g),
    )->Err_0)) by {
            reveal(menu_from);
        }
        if group_field(e, "level1Items"@) is Err {
            lemma_leaf_mismatch(e, "level1Items"@, group_field(e, "level1Items"@)->Err_0);
        } else {
            let inner = group_field(e, "level1Items"@)->Ok_0->Some_0;
            lemma_level1_items_mismatch(inner);
            lemma_nested_mismatch(e, "level1Items"@, inner, level1_items_from(inner)->Err_0);
        }
    } else if nest(
        "arrow"@,
        group_field(e, "arrow"@),
        |g: Entries| arrow_from(g),
    ) is Err {
        assert(menu_from(e)
            == Err::<MenuView, ConfigErrorView>(nest(
        "arrow"@,
        group_field(e, "arrow"@),
        |g: Entries| arrow_from(g),
    )->Err_0)) by {
            reveal(menu_from);
        }
        if group_field(e, "arrow"@) is Err {
            lemma_leaf_mismatch(e, "arrow"@, group_field(e, "arrow"@)->Err_0);
        } else {
            let inner = group_field(e, "arrow"@)->Ok_0->Some_0;
            lemma_arrow_mismatch(inner);
            lemma_nested_mismatch(e, "arrow"@, inner, arrow_from(inner)->Err_0);
        }
    } else {
        assert(menu_from(e) is Ok) by {
            reveal(menu_from);
        }
    }
}

impl Menu {
    /// Reads the record from the entries of an object. Unknown keys are ignored.
    pub fn from_entries(entries: &Vec<(String, Value)>) -> (r: Result<Menu, ConfigError>)
        ensures
            match r {
                Ok(v) => menu_from(entries_view(entries@)) == Ok::<MenuView, ConfigErrorView>(v@),
                Err(e) => menu_from(entries_view(entries@)) == Err::<MenuView, ConfigErrorView>(e@),
            },
    {
        proof {
            reveal(menu_from);
        }
        let width = match read_text(entries, "width") {
            Ok(x) => x,
            Err(kind) => return Err(ConfigError::leaf("width", kind)),
        };
        let background_color = match read_text(entries, "backgroundColor") {
            Ok(x) => x,
            Err(kind) => return Err(ConfigError::leaf("backgroundColor", kind)),
        };
        let text_color = match read_text(entries, "textColor") {
            Ok(x) => x,
            Err(kind) => return Err(ConfigError::leaf("textColor", kind)),
        };
        let active_text_color = match read_text(entries, "activeTextColor") {
            Ok(x) => x,
            Err(kind) => return Err(ConfigError::leaf("activeTextColor", kind)),
        };
        let group_items = match read_group(entries, "groupItems") {
            Ok(Some(inner)) => match GroupItems::from_entries(inner) {
                Ok(g) => Some(g),
                Err(e) => return Err(e.within("groupItems")),
            },
            Ok(None) => None,
            Err(kind) => return Err(ConfigError::leaf("groupItems", kind)),
        };
        let level1_items = match read_group(entries, "level1Items") {
            Ok(Some(inner)) => match Level1Items::from_entries(inner) {
                Ok(g) => Some(g),
                Err(e) => return Err(e.within("level1Items")),
            },
            Ok(None) => None,
            Err(kind) => return Err(ConfigError::leaf("level1Items", kind)),
        };
        let arrow = match read_group(entries, "arrow") {
            Ok(Some(inner)) => match Arrow::from_entries(inner) {
                Ok(g) => Some(g),
                Err(e) => return Err(e.within("arrow")),
            },
            Ok(None) => None,
            Err(kind) => return Err(ConfigError::leaf("arrow", kind)),
        };
        Ok(Menu { width, background_color, text_color, active_text_color, group_items, level1_items, arrow })
    }

    /// Writes the record as the entries of an object: each set field under its
    /// key, in field order.
    pub fn to_entries(&self) -> (r: Vec<(String, Value)>)
        ensures
            entries_view(r@) == menu_wire(self@),
    {
        let keys: [&str; 7] = ["width", "backgroundColor", "textColor", "activeTextColor", "groupItems", "level1Items", "arrow"];
        let values: Vec<Option<Value>> = vec![
            text_value(&self.width),
            text_value(&self.background_color),
            text_value(&self.text_color),
            text_value(&self.active_text_color),
            match &self.group_items {
                Some(g) => Some(object_value(g.to_entries())),
                None => None,
            },
            match &self.level1_items {
                Some(g) => Some(object_value(g.to_entries())),
                None => None,
            },
            match &self.arrow {
                Some(g) => Some(object_value(g.to_entries())),
                None => None,
            },
        ];
        assert(keys@.map_values(|k: &str| k@) =~= menu_keys());
        assert(opt_views(values@) =~= menu_values(self@));
        entries_of(&keys, values)
    }
}

impl Default for Menu {
    /// What an empty object reads as.
    fn default() -> (r: Menu)
        ensures
            menu_from(Seq::empty()) == Ok::<MenuView, ConfigErrorView>(r@),
    {
        proof {
            reveal(lookup);
            reveal(menu_from);
        }
        Menu {
            width: None,
            background_color: None,
            text_color: None,
            active_text_color: None,
            group_items: None,
            level1_items: None,
            arrow: None,
        }
    }
}

/// Size and spacing of the logo.
#[derive(Debug, Clone, PartialEq)]
pub struct Logo {
    pub max_height: Option<String>,
    pub max_width: Option<String>,
    pub gutter: Option<String>,
}

pub struct LogoView {
    pub max_height: Option<Seq<char>>,
    pub max_width: Option<Seq<char>>,
    pub gutter: Option<Seq<char>>,
}

impl View for Logo {
    type V = LogoView;

    open spec fn view(&self) -> LogoView {
        LogoView {
            max_height: self.max_height.deep_view(),
            max_width: self.max_width.deep_view(),
            gutter: self.gutter.deep_view(),
        }
    }
}

pub open spec fn logo_keys() -> Seq<Seq<char>> {
    seq!["maxHeight"@, "maxWidth"@, "gutter"@]
}

/// The record that the entries of an object denote, or the first field, in
/// field order, that has the wrong kind.
#[verifier::opaque]
pub open spec fn logo_from(e: Entries) -> Result<LogoView, ConfigErrorView> {
    let max_height = at("maxHeight"@, text_field(e, "maxHeight"@));
    let max_width = at("maxWidth"@, text_field(e, "maxWidth"@));
    let gutter = at("gutter"@, text_field(e, "gutter"@));
    if max_height is Err {
        Err(max_height->Err_0)
    } else if max_width is Err {
        Err(max_width->Err_0)
    } else if gutter is Err {
        Err(gutter->Err_0)
    } else {
        Ok(
            LogoView {
                max_height: max_height->Ok_0,
                max_width: max_width->Ok_0,
                gutter: gutter->Ok_0,
            },
        )
    }
}

/// The value of each field in wire form, in field order; `None` for an unset
/// field.
pub open spec fn logo_values(v: LogoView) -> Seq<Option<Json>> {
    seq![
        text_json(v.max_height),
        text_json(v.max_width),
        text_json(v.gutter),
    ]
}

/// The entries that the record is written as: its set fields, in field order.
pub open spec fn logo_wire(v: LogoView) -> Entries {
    fields_wire(logo_keys(), logo_values(v))
}

pub proof fn lemma_logo_keys()
    ensures
        distinct_keys(logo_keys()),
{
    reveal_strlit("maxHeight");
    reveal_strlit("maxWidth");
    reveal_strlit("gutter");
    assert("maxHeight"@.len() == 9);
    assert("maxWidth"@.len() == 8);
    assert("gutter"@.len() == 6);
}

/// A record written as entries reads back as itself.
pub proof fn lemma_logo_round_trip(v: LogoView)
    ensures
        logo_from(logo_wire(v))
            == Ok::<LogoView, ConfigErrorView>(v),
{
    reveal(logo_from);
    let e = logo_wire(v);
    let keys = logo_keys();
    let values = logo_values(v);
    lemma_logo_keys();
    assert(at("maxHeight"@, text_field(e, "maxHeight"@))
        == Ok::<Option<Seq<char>>, ConfigErrorView>(v.max_height)) by {
        lemma_lookup_fields_wire(keys, values, 0);
        assert(keys[0] == "maxHeight"@);
    }
    assert(at("maxWidth"@, text_field(e, "maxWidth"@))
        == Ok::<Option<Seq<char>>, ConfigErrorView>(v.max_width)) by {
        lemma_lookup_fields_wire(keys, values, 1);
        assert(keys[1] == "maxWidth"@);
    }
    assert(at("gutter"@, text_field(e, "gutter"@))
        == Ok::<Option<Seq<char>>, ConfigErrorView>(v.gutter)) by {
        lemma_lookup_fields_wire(keys, values, 2);
        assert(keys[2] == "gutter"@);
    }
}

/// Every key of the record that the entries hold has a value of its kind;
/// a nested record is well-typed in turn. Other keys may hold anything.
#[verifier::opaque]
pub open spec fn logo_well_typed(e: Entries) -> bool {
    &&& optional_fits(lookup(e, "maxHeight"@), Expected::Text)
    &&& optional_fits(lookup(e, "maxWidth"@), Expected::Text)
    &&& optional_fits(lookup(e, "gutter"@), Expected::Text)
}

/// The record reads without error exactly when the entries are well-typed.
pub proof fn lemma_logo_reads_iff_well_typed(e: Entries)
    ensures
        logo_from(e) is Ok <==> logo_well_typed(e),
{
    reveal(logo_from);
    reveal(logo_well_typed);
}

/// What entries can be read as when they hold no keys.
pub proof fn lemma_logo_empty()
    ensures
        logo_from(Seq::empty()) is Ok,
{
    reveal(lookup);
    reveal(logo_from);
}

/// A field of the wrong kind fails the whole record: nothing is read in part.
pub proof fn lemma_logo_wrong_field_fails(e: Entries)
    ensures
        (at("maxHeight"@, text_field(e, "maxHeight"@)) is Err
            || at("maxWidth"@, text_field(e, "maxWidth"@)) is Err
            || at("gutter"@, text_field(e, "gutter"@)) is Err)
            ==> logo_from(e) is Err,
{
    reveal(logo_from);
}

/// A failed read names a value of the entries that has the wrong kind.
pub proof fn lemma_logo_mismatch(e: Entries)
    requires
        logo_from(e) is Err,
    ensures
        names_mismatch(Json::Object(e), logo_from(e)->Err_0),
{
    if at("maxHeight"@, text_field(e, "maxHeight"@)) is Err {
        assert(logo_from(e)
            == Err::<LogoView, ConfigErrorView>(at("maxHeight"@, text_field(e, "maxHeight"@))->Err_0)) by {
            reveal(logo_from);
        }
        lemma_leaf_mismatch(e, "maxHeight"@, text_field(e, "maxHeight"@)->Err_0);
    } else if at("maxWidth"@, text_field(e, "maxWidth"@)) is Err {
        assert(logo_from(e)
            == Err::<LogoView, ConfigErrorView>(at("maxWidth"@, text_field(e, "maxWidth"@))->Err_0)) by {
            reveal(logo_from);
        }
        lemma_leaf_mismatch(e, "maxWidth"@, text_field(e, "maxWidth"@)->Err_0);
    } else if at("gutter"@, text_field(e, "gutter"@)) is Err {
        assert(logo_from(e)
            == Err::<LogoView, ConfigErrorView>(at("gutter"@, text_field(e, "gutter"@))->Err_0)) by {
            reveal(logo_from);
        }
        lemma_leaf_mismatch(e, "gutter"@, text_field(e, "gutter"@)->Err_0);
    } else {
        assert(logo_from(e) is Ok) by {
            reveal(logo_from);
        }
    }
}

impl Logo {
    /// Reads the record from the entries of an object. Unknown keys are ignored.
    pub fn from_entries(entries: &Vec<(String, Value)>) -> (r: Result<Logo, ConfigError>)
        ensures
            match r {
                Ok(v) => logo_from(entries_view(entries@)) == Ok::<LogoView, ConfigErrorView>(v@),
                Err(e) => logo_from(entries_view(entries@)) == Err::<LogoView, ConfigErrorView>(e@),
            },
    {
        proof {
            reveal(logo_from);
        }
        let max_height = match read_text(entries, "maxHeight") {
            Ok(x) => x,
            Err(kind) => return Err(ConfigError::leaf("maxHeight", kind)),
        };
        let max_width = match read_text(entries, "maxWidth") {
            Ok(x) => x,
            Err(kind) => return Err(ConfigError::leaf("maxWidth", kind)),
        };
        let gutter = match read_text(entries, "gutter") {
            Ok(x) => x,
            Err(kind) => return Err(ConfigError::leaf("gutter", kind)),
        };
        Ok(Logo { max_height, max_width, gutter })
    }

    /// Writes the record as the entries of an object: each set field under its
    /// key, in field order.
    pub fn to_entries(&self) -> (r: Vec<(String, Value)>)
        ensures
            entries_view(r@) == logo_wire(self@),
    {
        let keys: [&str; 3] = ["maxHeight", "maxWidth", "gutter"];
        let values: Vec<Option<Value>> = vec![
            text_value(&self.max_height),
            text_value(&self.max_width),
            text_value(&self.gutter),
        ];
        assert(keys@.map_values(|k: &str| k@) =~= logo_keys());
        assert(opt_views(values@) =~= logo_values(self@));
        entries_of(&keys, values)
    }
}

impl Default for Logo {
    /// What an empty object reads as.
    fn default() -> (r: Logo)
        ensures
            logo_from(Seq::empty()) == Ok::<LogoView, ConfigErrorView>(r@),
    {
        proof {
            reveal(lookup);
            reveal(logo_from);
        }
        Logo {
            max_height: None,
            max_width: None,
            gutter: None,
        }
    }
}

/// The right-hand panel of samples.
#[derive(Debug, Clone, PartialEq)]
pub struct RightPanel {
    pub background_color: Option<String>,
    pub width: Option<String>,
    pub text_color: Option<String>,
}

pub struct RightPanelView {
    pub background_color: Option<Seq<char>>,
    pub width: Option<Seq<char>>,
    pub text_color: Option<Seq<char>>,
}

impl View for RightPanel {
    type V = RightPanelView;

    open spec fn view(&self) -> RightPanelView {
        RightPanelView {
            background_color: self.background_color.deep_view(),
            width: self.width.deep_view(),
            text_color: self.text_color.deep_view(),
        }
    }
}

pub open spec fn right_panel_keys() -> Seq<Seq<char>> {
    seq!["backgroundColor"@, "width"@, "textColor"@]
}

/// The record that the entries of an object denote, or the first field, in
/// field order, that has the wrong kind.
#[verifier::opaque]
pub open spec fn right_panel_from(e: Entries) -> Result<RightPanelView, ConfigErrorView> {
    let background_color = at("backgroundColor"@, text_field(e, "backgroundColor"@));
    let width = at("width"@, text_field(e, "width"@));
    let text_color = at("textColor"@, text_field(e, "textColor"@));
    if background_color is Err {
        Err(background_color->Err_0)
    } else if width is Err {
        Err(width->Err_0)
    } else if text_color is Err {
        Err(text_color->Err_0)
    } else {
        Ok(
            RightPanelView {
                background_color: background_color->Ok_0,
                width: width->Ok_0,
                text_color: text_color->Ok_0,
            },
        )
    }
}

/// The value of each field in wire form, in field order; `None` for an unset
/// field.
pub open spec fn right_panel_values(v: RightPanelView) -> Seq<Option<Json>> {
    seq![
        text_json(v.background_color),
        text_json(v.width),
        text_json(v.text_color),
    ]
}

/// The entries that the record is written as: its set fields, in field order.
pub open spec fn right_panel_wire(v: RightPanelView) -> Entries {
    fields_wire(right_panel_keys(), right_panel_values(v))
}

pub proof fn lemma_right_panel_keys()
    ensures
        distinct_keys(right_panel_keys()),
{
    reveal_strlit("backgroundColor");
    reveal_strlit("width");
    reveal_strlit("textColor");
    assert("backgroundColor"@.len() == 15);
    assert("width"@.len() == 5);
    assert("textColor"@.len() == 9);
}

/// A record written as entries reads back as itself.
pub proof fn lemma_right_panel_round_trip(v: RightPanelView)
    ensures
        right_panel_from(right_panel_wire(v))
            == Ok::<RightPanelView, ConfigErrorView>(v),
{
    reveal(right_panel_from);
    let e = right_panel_wire(v);
    let keys = right_panel_keys();
    let values = right_panel_values(v);
    lemma_right_panel_keys();
    assert(at("backgroundColor"@, text_field(e, "backgroundColor"@))
        == Ok::<Option<Seq<char>>, ConfigErrorView>(v.background_color)) by {
        lemma_lookup_fields_wire(keys, values, 0);
        assert(keys[0] == "backgroundColor"@);
    }
    assert(at("width"@, text_field(e, "width"@))
        == Ok::<Option<Seq<char>>, ConfigErrorView>(v.width)) by {
        lemma_lookup_fields_wire(keys, values, 1);
        assert(keys[1] == "width"@);
    }
    assert(at("textColor"@, text_field(e, "textColor"@))
        == Ok::<Option<Seq<char>>, ConfigErrorView>(v.text_color)) by {
        lemma_lookup_fields_wire(keys, values, 2);
        assert(keys[2] == "textColor"@);
    }
}

/// Every key of the record that the entries hold has a value of its kind;
/// a nested record is well-typed in turn. Other keys may hold anything.
#[verifier::opaque]
pub open spec fn right_panel_well_typed(e: Entries) -> bool {
    &&& optional_fits(lookup(e, "backgroundColor"@), Expected::Text)
    &&& optional_fits(lookup(e, "width"@), Expected::Text)
    &&& optional_fits(lookup(e, "textColor"@), Expected::Text)
}

/// The record reads without error exactly when the entries are well-typed.
pub proof fn lemma_right_panel_reads_iff_well_typed(e: Entries)
    ensures
        right_panel_from(e) is Ok <==> right_panel_well_typed(e),
{
    reveal(right_panel_from);
    reveal(right_panel_well_typed);
}

/// What entries can be read as when they hold no keys.
pub proof fn lemma_right_panel_empty()
    ensures
        right_panel_from(Seq::empty()) is Ok,
{
    reveal(lookup);
    reveal(right_panel_from);
}

/// A field of the wrong kind fails the whole record: nothing is read in part.
pub proof fn lemma_right_panel_wrong_field_fails(e: Entries)
    ensures
        (at("backgroundColor"@, text_field(e, "backgroundColor"@)) is Err
            || at("width"@, text_field(e, "width"@)) is Err
            || at("textColor"@, text_field(e, "textColor"@)) is Err)
            ==> right_panel_from(e) is Err,
{
    reveal(right_panel_from);
}

/// A failed read names a value of the entries that has the wrong kind.
pub proof fn lemma_right_panel_mismatch(e: Entries)
    requires
        right_panel_from(e) is Err,
    ensures
        names_mismatch(Json::Object(e), right_panel_from(e)->Err_0),
{
    if at("backgroundColor"@, text_field(e, "backgroundColor"@)) is Err {
        assert(right_panel_from(e)
            == Err::<RightPanelView, ConfigErrorView>(at("backgroundColor"@, text_field(e, "backgroundColor"@))->Err_0)) by {
            reveal(right_panel_from);
        }
        lemma_leaf_mismatch(e, "backgroundColor"@, text_field(e, "backgroundColor"@)->Err_0);
    } else if at("width"@, text_field(e, "width"@)) is Err {
        assert(right_panel_from(e)
            == Err::<RightPanelView, ConfigErrorView>(at("width"@, text_field(e, "width"@))->Err_0)) by {
            reveal(right_panel_from);
        }
        lemma_leaf_mismatch(e, "width"@, text_field(e, "width"@)->Err_0);
    } else if at("textColor"@, text_field(e, "textColor"@)) is Err {
        assert(right_panel_from(e)
            == Err::<RightPanelView, ConfigErrorView>(at("textColor"@, text_field(e, "textColor"@))->Err_0)) by {
            reveal(right_panel_from);
        }
        lemma_leaf_mismatch(e, "textColor"@, text_field(e, "textColor"@)->Err_0);
    } else {
        assert(right_panel_from(e) is Ok) by {
            reveal(right_panel_from);
        }
    }
}

impl RightPanel {
    /// Reads the record from the entries of an object. Unknown keys are ignored.
    pub fn from_entries(entries: &Vec<(String, Value)>) -> (r: Result<RightPanel, ConfigError>)
        ensures
            match r {
                Ok(v) => right_panel_from(entries_view(entries@)) == Ok::<RightPanelView, ConfigErrorView>(v@),
                Err(e) => right_panel_from(entries_view(entries@)) == Err::<RightPanelView, ConfigErrorView>(e@),
            },
    {
        proof {
            reveal(right_panel_from);
        }
        let background_color = match read_text(entries, "backgroundColor") {
            Ok(x) => x,
            Err(kind) => return Err(ConfigError::leaf("backgroundColor", kind)),
        };
        let width = match read_text(entries, "width") {
            Ok(x) => x,
            Err(kind) => return Err(ConfigError::leaf("width", kind)),
        };
        let text_color = match read_text(entries, "textColor") {
            Ok(x) => x,
            Err(kind) => return Err(ConfigError::leaf("textColor", kind)),
        };
        Ok(RightPanel { background_color, width, text_color })
    }

    /// Writes the record as the entries of an object: each set field under its
    /// key, in field order.
    pub fn to_entries(&self) -> (r: Vec<(String, Value)>)
        ensures
            entries_view(r@) == right_panel_wire(self@),
    {
        let keys: [&str; 3] = ["backgroundColor", "width", "textColor"];
        let values: Vec<Option<Value>> = vec![
            text_value(&self.background_color),
            text_value(&self.width),
            text_value(&self.text_color),
        ];
        assert(keys@.map_values(|k: &str| k@) =~= right_panel_keys());
        assert(opt_views(values@) =~= right_panel_values(self@));
        entries_of(&keys, values)
    }
}

impl Default for RightPanel {
    /// What an empty object reads as.
    fn default() -> (r: RightPanel)
        ensures
            right_panel_from(Seq::empty()) == Ok::<RightPanelView, ConfigErrorView>(r@),
    {
        proof {
            reveal(lookup);
            reveal(right_panel_from);
        }
        RightPanel {
            background_color: None,
            width: None,
            text_color: None,
        }
    }
}

/// Overrides of the renderer's visual theme. An unset group is left out of the
/// wire form, so the renderer's own values stay in effect.
#[derive(Debug, Clone, PartialEq)]
pub struct ThemeOptions {
    pub spacing: Option<Spacing>,
    pub breakpoints: Option<Breakpoints>,
    pub colors: Option<Colors>,
    pub typography: Option<Typography>,
    pub sidebar: Option<Menu>,
    pub logo: Option<Logo>,
    pub right_panel: Option<RightPanel>,
}

pub struct ThemeOptionsView {
    pub spacing: Option<SpacingView>,
    pub breakpoints: Option<BreakpointsView>,
    pub colors: Option<ColorsView>,
    pub typography: Option<TypographyView>,
    pub sidebar: Option<MenuView>,
    pub logo: Option<LogoView>,
    pub right_panel: Option<RightPanelView>,
}

impl View for ThemeOptions {
    type V = ThemeOptionsView;

    open spec fn view(&self) -> ThemeOptionsView {
        ThemeOptionsView {
            spacing: match self.spacing {
                Some(g) => Some(g@),
                None => None,
            },
            breakpoints: match self.breakpoints {
                Some(g) => Some(g@),
                None => None,
            },
            colors: match self.colors {
                Some(g) => Some(g@),
                None => None,
            },
            typography: match self.typography {
                Some(g) => Some(g@),
                None => None,
            },
            sidebar: match self.sidebar {
                Some(g) => Some(g@),
                None => None,
            },
            logo: match self.logo {
                Some(g) => Some(g@),
                None => None,
            },
            right_panel: match self.right_panel {
                Some(g) => Some(g@),
                None => None,
            },
        }
    }
}

pub open spec fn theme_options_keys() -> Seq<Seq<char>> {
    seq!["spacing"@, "breakpoints"@, "colors"@, "typography"@, "sidebar"@, "logo"@, "rightPanel"@]
}

/// The record that the entries of an object denote, or the first field, in
/// field order, that has the wrong kind.
#[verifier::opaque]
pub open spec fn theme_options_from(e: Entries) -> Result<ThemeOptionsView, ConfigErrorView> {
    let spacing = nest(
        "spacing"@,
        group_field(e, "spacing"@),
        |g: Entries| spacing_from(g),
    );
    let breakpoints = nest(
        "breakpoints"@,
        group_field(e, "breakpoints"@),
        |g: Entries| breakpoints_from(g),
    );
    let colors = nest(
        "colors"@,
        group_field(e, "colors"@),
        |g: Entries| colors_from(g),
    );
    let typography = nest(
        "typography"@,
        group_field(e, "typography"@),
        |g: Entries| typography_from(g),
    );
    let sidebar = nest(
        "sidebar"@,
        group_field(e, "sidebar"@),
        |g: Entries| menu_from(g),
    );
    let logo = nest(
        "logo"@,
        group_field(e, "logo"@),
        |g: Entries| logo_from(g),
    );
    let right_panel = nest(
        "rightPanel"@,
        group_field(e, "rightPanel"@),
        |g: Entries| right_panel_from(g),
    );
    if spacing is Err {
        Err(spacing->Err_0)
    } else if breakpoints is Err {
        Err(breakpoints->Err_0)
    } else if colors is Err {
        Err(colors->Err_0)
    } else if typography is Err {
        Err(typography->Err_0)
    } else if sidebar is Err {
        Err(sidebar->Err_0)
    } else if logo is Err {
        Err(logo->Err_0)
    } else if right_panel is Err {
        Err(right_panel->Err_0)
    } else {
        Ok(
            ThemeOptionsView {
                spacing: spacing->Ok_0,
                breakpoints: breakpoints->Ok_0,
                colors: colors->Ok_0,
                typography: typography->Ok_0,
                sidebar: sidebar->Ok_0,
                logo: logo->Ok_0,
                right_panel: right_panel->Ok_0,
            },
        )
    }
}

/// The value of each field in wire form, in field order; `None` for an unset
/// field.
pub open spec fn theme_options_values(v: ThemeOptionsView) -> Seq<Option<Json>> {
    seq![
        match v.spacing {
            Some(g) => Some(Json::Object(spacing_wire(g))),
            None => None,
        },
        match v.breakpoints {
            Some(g) => Some(Json::Object(breakpoints_wire(g))),
            None => None,
        },
        match v.colors {
            Some(g) => Some(Json::Object(colors_wire(g))),
            None => None,
        },
        match v.typography {
            Some(g) => Some(Json::Object(typography_wire(g))),
            None => None,
        },
        match v.sidebar {
            Some(g) => Some(Json::Object(menu_wire(g))),
            None => None,
        },
        match v.logo {
            Some(g) => Some(Json::Object(logo_wire(g))),
            None => None,
        },
        match v.right_panel {
            Some(g) => Some(Json::Object(right_panel_wire(g))),
            None => None,
        },
    ]
}

/// The entries that the record is written as: its set fields, in field order.
pub open spec fn theme_options_wire(v: ThemeOptionsView) -> Entries {
    fields_wire(theme_options_keys(), theme_options_values(v))
}

pub proof fn lemma_theme_options_keys()
    ensures
        distinct_keys(theme_options_keys()),
{
    reveal_strlit("spacing");
    reveal_strlit("breakpoints");
    reveal_strlit("colors");
    reveal_strlit("typography");
    reveal_strlit("sidebar");
    reveal_strlit("logo");
    reveal_strlit("rightPanel");
    assert("spacing"@.len() == 7);
    assert("breakpoints"@.len() == 11);
    assert("colors"@.len() == 6);
    assert("typography"@.len() == 10);
    assert("sidebar"@.len() == 7);
    assert("logo"@.len() == 4);
    assert("rightPanel"@.len() == 10);
    assert("spacing"@[1] != "sidebar"@[1]);
    assert("typography"@[0] != "rightPanel"@[0]);
}

/// A record written as entries reads back as itself.
pub proof fn lemma_theme_options_round_trip(v: ThemeOptionsView)
    ensures
        theme_options_from(theme_options_wire(v))
            == Ok::<ThemeOptionsView, ConfigErrorView>(v),
{
    reveal(theme_options_from);
    let e = theme_options_wire(v);
    let keys = theme_options_keys();
    let values = theme_options_values(v);
    lemma_theme_options_keys();
    assert(nest(
        "spacing"@,
        group_field(e, "spacing"@),
        |g: Entries| spacing_from(g),
    )
        == Ok::<Option<SpacingView>, ConfigErrorView>(v.spacing)) by {
        lemma_lookup_fields_wire(keys, values, 0);
        assert(keys[0] == "spacing"@);
        if let Some(g) = v.spacing {
            lemma_spacing_round_trip(g);
        }
    }
    assert(nest(
        "breakpoints"@,
        group_field(e, "breakpoints"@),
        |g: Entries| breakpoints_from(g),
    )
        == Ok::<Option<BreakpointsView>, ConfigErrorView>(v.breakpoints)) by {
        lemma_lookup_fields_wire(keys, values, 1);
        assert(keys[1] == "breakpoints"@);
        if let Some(g) = v.breakpoints {
            lemma_breakpoints_round_trip(g);
        }
    }
    assert(nest(
        "colors"@,
        group_field(e, "colors"@),
        |g: Entries| colors_from(g),
    )
        == Ok::<Option<ColorsView>, ConfigErrorView>(v.colors)) by {
        lemma_lookup_fields_wire(keys, values, 2);
        assert(keys[2] == "colors"@);
        if let Some(g) = v.colors {
            lemma_colors_round_trip(g);
        }
    }
    assert(nest(
        "typography"@,
        group_field(e, "typography"@),
        |g: Entries| typography_from(g),
    )
        == Ok::<Option<TypographyView>, ConfigErrorView>(v.typography)) by {
        lemma_lookup_fields_wire(keys, values, 3);
        assert(keys[3] == "typography"@);
        if let Some(g) = v.typography {
            lemma_typography_round_trip(g);
        }
    }
    assert(nest(
        "sidebar"@,
        group_field(e, "sidebar"@),
        |g: Entries| menu_from(g),
    )
        == Ok::<Option<MenuView>, ConfigErrorView>(v.sidebar)) by {
        lemma_lookup_fields_wire(keys, values, 4);
        assert(keys[4] == "sidebar"@);
        if let Some(g) = v.sidebar {
            lemma_menu_round_trip(g);
        }
    }
    assert(nest(
        "logo"@,
        group_field(e, "logo"@),
        |g: Entries| logo_from(g),
    )
        == Ok::<Option<LogoView>, ConfigErrorView>(v.logo)) by {
        lemma_lookup_fields_wire(keys, values, 5);
        assert(keys[5] == "logo"@);
        if let Some(g) = v.logo {
            lemma_logo_round_trip(g);
        }
    }
    assert(nest(
        "rightPanel"@,
        group_field(e, "rightPanel"@),
        |g: Entries| right_panel_from(g),
    )
        == Ok::<Option<RightPanelView>, ConfigErrorView>(v.right_panel)) by {
        lemma_lookup_fields_wire(keys, values, 6);
        assert(keys[6] == "rightPanel"@);
        if let Some(g) = v.right_panel {
            lemma_right_panel_round_trip(g);
        }
    }
}

/// Every key of the record that the entries hold has a value of its kind;
/// a nested record is well-typed in turn. Other keys may hold anything.
#[verifier::opaque]
pub open spec fn theme_options_well_typed(e: Entries) -> bool {
    &&& match lookup(e, "spacing"@) {
        None => true,
        Some(Json::Null) => true,
        Some(Json::Object(inner)) => spacing_well_typed(inner),
        Some(_) => false,
    }
    &&& match lookup(e, "breakpoints"@) {
        None => true,
        Some(Json::Null) => true,
        Some(Json::Object(inner)) => breakpoints_well_typed(inner),
        Some(_) => false,
    }
    &&& match lookup(e, "colors"@) {
        None => true,
        Some(Json::Null) => true,
        Some(Json::Object(inner)) => colors_well_typed(inner),
        Some(_) => false,
    }
    &&& match lookup(e, "typography"@) {
        None => true,
        Some(Json::Null) => true,
        Some(Json::Object(inner)) => typography_well_typed(inner),
        Some(_) => false,
    }
    &&& match lookup(e, "sidebar"@) {
        None => true,
        Some(Json::Null) => true,
        Some(Json::Object(inner)) => menu_well_typed(inner),
        Some(_) => false,
    }
    &&& match lookup(e, "logo"@) {
        None => true,
        Some(Json::Null) => true,
        Some(Json::Object(inner)) => logo_well_typed(inner),
        Some(_) => false,
    }
    &&& match lookup(e, "rightPanel"@) {
        None => true,
        Some(Json::Null) => true,
        Some(Json::Object(inner)) => right_panel_well_typed(inner),
        Some(_) => false,
    }
}

/// The record reads without error exactly when the entries are well-typed.
pub proof fn lemma_theme_options_reads_iff_well_typed(e: Entries)
    ensures
        theme_options_from(e) is Ok <==> theme_options_well_typed(e),
{
    reveal(theme_options_from);
    reveal(theme_options_well_typed);
    if let Some(Json::Object(inner)) = lookup(e, "spacing"@) {
        lemma_spacing_reads_iff_well_typed(inner);
    }
    if let Some(Json::Object(inner)) = lookup(e, "breakpoints"@) {
        lemma_breakpoints_reads_iff_well_typed(inner);
    }
    if let Some(Json::Object(inner)) = lookup(e, "colors"@) {
        lemma_colors_reads_iff_well_typed(inner);
    }
    if let Some(Json::Object(inner)) = lookup(e, "typography"@) {
        lemma_typography_reads_iff_well_typed(inner);
    }
    if let Some(Json::Object(inner)) = lookup(e, "sidebar"@) {
        lemma_menu_reads_iff_well_typed(inner);
    }
    if let Some(Json::Object(inner)) = lookup(e, "logo"@) {
        lemma_logo_reads_iff_well_typed(inner);
    }
    if let Some(Json::Object(inner)) = lookup(e, "rightPanel"@) {
        lemma_right_panel_reads_iff_well_typed(inner);
    }
}

/// What entries can be read as when they hold no keys.
pub proof fn lemma_theme_options_empty()
    ensures
        theme_options_from(Seq::empty()) is Ok,
{
    reveal(lookup);
    reveal(theme_options_from);
}

/// A field of the wrong kind fails the whole record: nothing is read in part.
pub proof fn lemma_theme_options_wrong_field_fails(e: Entries)
    ensures
        (nest(
        "spacing"@,
        group_field(e, "spacing"@),
        |g: Entries| spacing_from(g),
    ) is Err
            || nest(
        "breakpoints"@,
        group_field(e, "breakpoints"@),
        |g: Entries| breakpoints_from(g),
    ) is Err
            || nest(
        "colors"@,
        group_field(e, "colors"@),
        |g: Entries| colors_from(g),
    ) is Err
            || nest(
        "typography"@,
        group_field(e, "typography"@),
        |g: Entries| typography_from(g),
    ) is Err
            || nest(
        "sidebar"@,
        group_field(e, "sidebar"@),
        |g: Entries| menu_from(g),
    ) is Err
            || nest(
        "logo"@,
        group_field(e, "logo"@),
        |g: Entries| logo_from(g),
    ) is Err
            || nest(
        "rightPanel"@,
        group_field(e, "rightPanel"@),
        |g: Entries| right_panel_from(g),
    ) is Err)
            ==> theme_options_from(e) is Err,
{
    reveal(theme_options_from);
}

/// A failed read names a value of the entries that has the wrong kind.
pub proof fn lemma_theme_options_mismatch(e: Entries)
    requires
        theme_options_from(e) is Err,
    ensures
        names_mismatch(Json::Object(e), theme_options_from(e)->Err_0),
{
    if nest(
        "spacing"@,
        group_field(e, "spacing"@),
        |g: Entries| spacing_from(g),
    ) is Err {
        assert(theme_options_from(e)
            == Err::<ThemeOptionsView, ConfigErrorView>(nest(
        "spacing"@,
        group_field(e, "spacing"@),
        |g: Entries| spacing_from(g),
    )->Err_0)) by {
            reveal(theme_options_from);
        }
        if group_field(e, "spacing"@) is Err {
            lemma_leaf_mismatch(e, "spacing"@, group_field(e, "spacing"@)->Err_0);
        } else {
            let inner = group_field(e, "spacing"@)->Ok_0->Some_0;
            lemma_spacing_mismatch(inner);
            lemma_nested_mismatch(e, "spacing"@, inner, spacing_from(inner)->Err_0);
        }
    } else if nest(
        "breakpoints"@,
        group_field(e, "breakpoints"@),
        |g: Entries| breakpoints_from(g),
    ) is Err {
        assert(theme_options_from(e)
            == Err::<ThemeOptionsView, ConfigErrorView>(nest(
        "breakpoints"@,
        group_field(e, "breakpoints"@),
        |g: Entries| breakpoints_from(g),
    )->Err_0)) by {
            reveal(theme_options_from);
        }
        if group_field(e, "breakpoints"@) is Err {
            lemma_leaf_mismatch(e, "breakpoints"@, group_field(e, "breakpoints"@)->Err_0);
        } else {
            let inner = group_field(e, "breakpoints"@)->Ok_0->Some_0;
            lemma_breakpoints_mismatch(inner);
            lemma_nested_mismatch(e, "breakpoints"@, inner, breakpoints_from(inner)->Err_0);
        }
    } else if nest(
        "colors"@,
        group_field(e, "colors"@),
        |g: Entries| colors_from(g),
    ) is Err {
        assert(theme_options_from(e)
            == Err::<ThemeOptionsView, ConfigErrorView>(nest(
        "colors"@,
        group_field(e, "colors"@),
        |g: Entries| colors_from(g),
    )->Err_0)) by {
            reveal(theme_options_from);
        }
        if group_field(e, "colors"@) is Err {
            lemma_leaf_mismatch(e, "colors"@, group_field(e, "colors"@)->Err_0);
        } else {
            let inner = group_field(e, "colors"@)->Ok_0->Some_0;
            lemma_colors_mismatch(inner);
            lemma_nested_mismatch(e, "colors"@, inner, colors_from(inner)->Err_0);
        }
    } else if nest(
        "typography"@,
        group_field(e, "typography"@),
        |g: Entries| typography_from(g),
    ) is Err {
        assert(theme_options_from(e)
            == Err::<ThemeOptionsView, ConfigErrorView>(nest(
        "typography"@,
        group_field(e, "typography"@),
        |g: Entries| typography_from(g),
    )->Err_0)) by {
            reveal(theme_options_from);
        }
        if group_field(e, "typography"@) is Err {
            lemma_leaf_mismatch(e, "typography"@, group_field(e, "typography"@)->Err_0);
        } else {
            let inner = group_field(e, "typography"@)->Ok_0->Some_0;
            lemma_typography_mismatch(inner);
            lemma_nested_mismatch(e, "typography"@, inner, typography_from(inner)->Err_0);
        }
    } else if nest(
        "sidebar"@,
        group_field(e, "sidebar"@),
        |g: Entries| menu_from(g),
    ) is Err {
        assert(theme_options_from(e)
            == Err::<ThemeOptionsView, ConfigErrorView>(nest(
        "sidebar"@,
        group_field(e, "sidebar"@),
        |g: Entries| menu_from(g),
    )->Err_0)) by {
            reveal(theme_options_from);
        }
        if group_field(e, "sidebar"@) is Err {
            lemma_leaf_mismatch(e, "sidebar"@, group_field(e, "sidebar"@)->Err_0);
        } else {
            let inner = group_field(e, "sidebar"@)->Ok_0->Some_0;
            lemma_menu_mismatch(inner);
            lemma_nested_mismatch(e, "sidebar"@, inner, menu_from(inner)->Err_0);
        }
    } else if nest(
        "logo"@,
        group_field(e, "logo"@),
        |g: Entries| logo_from(g),
    ) is Err {
        assert(theme_options_from(e)
            == Err::<ThemeOptionsView, ConfigErrorView>(nest(
        "logo"@,
        group_field(e, "logo"@),
        |g: Entries| logo_from(g),
    )->Err_0)) by {
            reveal(theme_options_from);
        }
        if group_field(e, "logo"@) is Err {
            lemma_leaf_mismatch(e, "logo"@, group_field(e, "logo"@)->Err_0);
        } else {
            let inner = group_field(e, "logo"@)->Ok_0->Some_0;
            lemma_logo_mismatch(inner);
            lemma_nested_mismatch(e, "logo"@, inner, logo_from(inner)->Err_0);
        }
    } else if nest(
        "rightPanel"@,
        group_field(e, "rightPanel"@),
        |g: Entries| right_panel_from(g),
    ) is Err {
        assert(theme_options_from(e)
            == Err::<ThemeOptionsView, ConfigErrorView>(nest(
        "rightPanel"@,
        group_field(e, "rightPanel"@),
        |g: Entries| right_panel_from(g),
    )->Err_0)) by {
            reveal(theme_options_from);
        }
        if group_field(e, "rightPanel"@) is Err {
            lemma_leaf_mismatch(e, "rightPanel"@, group_field(e, "rightPanel"@)->Err_0);
        } else {
            let inner = group_field(e, "rightPanel"@)->Ok_0->Some_0;
            lemma_right_panel_mismatch(inner);
            lemma_nested_mismatch(e, "rightPanel"@, inner, right_panel_from(inner)->Err_0);
        }
    } else {
        assert(theme_options_from(e) is Ok) by {
            reveal(theme_options_from);
        }
    }
}

impl ThemeOptions {
    /// Reads the record from the entries of an object. Unknown keys are ignored.
    pub fn from_entries(entries: &Vec<(String, Value)>) -> (r: Result<ThemeOptions, ConfigError>)
        ensures
            match r {
                Ok(v) => theme_options_from(entries_view(entries@)) == Ok::<ThemeOptionsView, ConfigErrorView>(v@),
                Err(e) => theme_options_from(entries_view(entries@)) == Err::<ThemeOptionsView, ConfigErrorView>(e@),
            },
    {
        proof {
            reveal(theme_options_from);
        }
        let spacing = match read_group(entries, "spacing") {
            Ok(Some(inner)) => match Spacing::from_entries(inner) {
                Ok(g) => Some(g),
                Err(e) => return Err(e.within("spacing")),
            },
            Ok(None) => None,
            Err(kind) => return Err(ConfigError::leaf("spacing", kind)),
        };
        let breakpoints = match read_group(entries, "breakpoints") {
            Ok(Some(inner)) => match Breakpoints::from_entries(inner) {
                Ok(g) => Some(g),
                Err(e) => return Err(e.within("breakpoints")),
            },
            Ok(None) => None,
            Err(kind) => return Err(ConfigError::leaf("breakpoints", kind)),
        };
        let colors = match read_group(entries, "colors") {
            Ok(Some(inner)) => match Colors::from_entries(inner) {
                Ok(g) => Some(g),
                Err(e) => return Err(e.within("colors")),
            },
            Ok(None) => None,
            Err(kind) => return Err(ConfigError::leaf("colors", kind)),
        };
        let typography = match read_group(entries, "typography") {
            Ok(Some(inner)) => match Typography::from_entries(inner) {
                Ok(g) => Some(g),
                Err(e) => return Err(e.within("typography")),
            },
            Ok(None) => None,
            Err(kind) => return Err(ConfigError::leaf("typography", kind)),
        };
        let sidebar = match read_group(entries, "sidebar") {
            Ok(Some(inner)) => match Menu::from_entries(inner) {
                Ok(g) => Some(g),
                Err(e) => return Err(e.within("sidebar")),
            },
            Ok(None) => None,
            Err(kind) => return Err(ConfigError::leaf("sidebar", kind)),
        };
        let logo = match read_group(entries, "logo") {
            Ok(Some(inner)) => match Logo::from_entries(inner) {
                Ok(g) => Some(g),
                Err(e) => return Err(e.within("logo")),
            },
            Ok(None) => None,
            Err(kind) => return Err(ConfigError::leaf("logo", kind)),
        };
        let right_panel = match read_group(entries, "rightPanel") {
            Ok(Some(inner)) => match RightPanel::from_entries(inner) {
                Ok(g) => Some(g),
                Err(e) => return Err(e.within("rightPanel")),
            },
            Ok(None) => None,
            Err(kind) => return Err(ConfigError::leaf("rightPanel", kind)),
        };
        Ok(ThemeOptions { spacing, breakpoints, colors, typography, sidebar, logo, right_panel })
    }

    /// Writes the record as the entries of an object: each set field under its
    /// key, in field order.
    pub fn to_entries(&self) -> (r: Vec<(String, Value)>)
        ensures
            entries_view(r@) == theme_options_wire(self@),
    {
        let keys: [&str; 7] = ["spacing", "breakpoints", "colors", "typography", "sidebar", "logo", "rightPanel"];
        let values: Vec<Option<Value>> = vec![
            match &self.spacing {
                Some(g) => Some(object_value(g.to_entries())),
                None => None,
            },
            match &self.breakpoints {
                Some(g) => Some(object_value(g.to_entries())),
                None => None,
            },
            match &self.colors {
                Some(g) => Some(object_value(g.to_entries())),
                None => None,
            },
            match &self.typography {
                Some(g) => Some(object_value(g.to_entries())),
                None => None,
            },
            match &self.sidebar {
                Some(g) => Some(object_value(g.to_entries())),
                None => None,
            },
            match &self.logo {
                Some(g) => Some(object_value(g.to_entries())),
                None => None,
            },
            match &self.right_panel {
                Some(g) => Some(object_value(g.to_entries())),
                None => None,
            },
        ];
        assert(keys@.map_values(|k: &str| k@) =~= theme_options_keys());
        assert(opt_views(values@) =~= theme_options_values(self@));
        entries_of(&keys, values)
    }
}

impl Default for ThemeOptions {
    /// What an empty object reads as.
    fn default() -> (r: ThemeOptions)
        ensures
            theme_options_from(Seq::empty()) == Ok::<ThemeOptionsView, ConfigErrorView>(r@),
    {
        proof {
            reveal(lookup);
            reveal(theme_options_from);
        }
        ThemeOptions {
            spacing: None,
            breakpoints: None,
            colors: None,
            typography: None,
            sidebar: None,
            logo: None,
            right_panel: None,
        }
    }
}


} // verus!
