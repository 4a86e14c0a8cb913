//! The version-union generator: from the declaration of the current type to
//! the union over its slots and the dispatch that goes with it.

use vstd::prelude::*;
use crate::declaration::{
    extract_outcome, extract_versions, lemma_extracted_slots_dense, problem_text, slot_views,
    syntax_text, text_views, Data, DataView, DeriveInput, DeriveInputView, Fields, FieldsView,
    Malformed, Meta, MetaView, Problem, Slot,
};
use crate::token::visible;
use crate::tag::{is_known_tag, lemma_decimal_injective, slot_tag, tag_text};

verus! {

/// Why no union can be generated for a declaration.
#[derive(Clone, Copy, Debug, PartialEq, Eq, Structural)]
pub enum DeriveError {
    /// A `versioned` attribute is malformed.
    Malformed(Malformed),
    /// No slot is declared: there is no `versioned` attribute, or its list
    /// is empty.
    NoVersions,
    /// The current type is a struct with positional fields.
    TupleStruct,
    /// The current type is a struct without fields and without braces.
    UnitStruct,
    /// The current type is a struct with braces and no field in them.
    NoFields,
    /// The current type is an enum or a union.
    NotAStruct,
}

/// What a failed generation tells the author of the type `name`.
pub open spec fn error_text(error: DeriveError, name: Seq<char>) -> Seq<char> {
    match error {
        DeriveError::Malformed(m) => name + ": malformed `versioned` attribute: "@ + problem_text(
            m.problem,
        ) + ". The correct syntax is: #[versioned(versions = [Version1, Version2, ...])]"@,
        DeriveError::NoVersions => "No version structs specified for "@ + name
            + ". Please specify at least one version using #[versioned(versions = [Version1, ...])] attribute.\n\nExample:\n  #[versioned(versions = ["@
            + name + "V1, "@ + name + "V2])]"@,
        DeriveError::TupleStruct => name
            + ": Versioned derive macro only supports structs with named fields (not tuple structs).\n\nConsider changing:\n  struct "@
            + name + "(...);\n\nto:\n  struct "@ + name + " { ... };"@,
        DeriveError::UnitStruct => name
            + ": Versioned derive macro does not support unit structs. The struct must have at least one named field."@,
        DeriveError::NoFields => name
            + ": Versioned derive macro does not support structs without fields. The struct must have at least one named field."@,
        DeriveError::NotAStruct => name
            + ": Versioned derive macro only supports structs, not enums or unions."@,
    }
}

/// What a failed generation tells the author of the declaration `input`:
/// where the argument list of one of its attributes is malformed, what the
/// list itself shows (the word that stands in place of `versions`); in
/// every other case what the error alone tells.
pub open spec fn error_text_in(error: DeriveError, input: DeriveInputView) -> Seq<char> {
    match error {
        DeriveError::Malformed(Malformed { attribute, problem: Problem::Syntax(e) }) => {
            if attribute < input.attrs.len() {
                match input.attrs[attribute as int].meta {
                    MetaView::List(tokens) => input.ident + ": "@ + syntax_text(
                        e,
                        visible(tokens),
                    ),
                    _ => error_text(error, input.ident),
                }
            } else {
                error_text(error, input.ident)
            }
        },
        _ => error_text(error, input.ident),
    }
}

impl DeriveError {
    /// The message for the author of the declaration `input`, which this
    /// error was found in. Where `versions` is misspelled, the message
    /// names the word found.
    pub fn explain(&self, input: &DeriveInput) -> (text: String)
        ensures
            text@ == error_text_in(*self, input@),
    {
        match self {
            DeriveError::Malformed(Malformed { attribute, problem: Problem::Syntax(e) }) => {
                if *attribute < input.attrs.len() {
                    let attr = &input.attrs[*attribute];
                    assert(input@.attrs[*attribute as int] == attr@);
                    match &attr.meta {
                        Meta::List(tokens) => {
                            let mut text = input.ident.clone();
                            text.append(": ");
                            let detail = e.message(tokens.as_slice());
                            text.append(detail.as_str());
                            return text;
                        },
                        _ => {},
                    }
                }
                self.message(input.ident.as_str())
            },
            _ => self.message(input.ident.as_str()),
        }
    }

    /// The message for the author of the type `name`: what is wrong, and
    /// how to put it right.
    pub fn message(&self, name: &str) -> (text: String)
        ensures
            text@ == error_text(*self, name@),
    {
        match self {
            DeriveError::Malformed(m) => {
                let mut text = String::from_str(name);
                text.append(": malformed `versioned` attribute: ");
                text.append(m.problem.describe());
                text.append(
                    ". The correct syntax is: #[versioned(versions = [Version1, Version2, ...])]",
                );
                assert(text@ =~= error_text(*self, name@));
                text
            },
            DeriveError::NoVersions => {
                let mut text = String::from_str("No version structs specified for ");
                text.append(name);
                text.append(
                    ". Please specify at least one version using #[versioned(versions = [Version1, ...])] attribute.\n\nExample:\n  #[versioned(versions = [",
                );
                text.append(name);
                text.append("V1, ");
                text.append(name);
                text.append("V2])]");
                assert(text@ =~= error_text(*self, name@));
                text
            },
            DeriveError::TupleStruct => {
                let mut text = String::from_str(name);
                text.append(
                    ": Versioned derive macro only supports structs with named fields (not tuple structs).\n\nConsider changing:\n  struct ",
                );
                text.append(name);
                text.append("(...);\n\nto:\n  struct ");
                text.append(name);
                text.append(" { ... };");
                assert(text@ =~= error_text(*self, name@));
                text
            },
            DeriveError::UnitStruct => {
                let mut text = String::from_str(name);
                text.append(
                    ": Versioned derive macro does not support unit structs. The struct must have at least one named field.",
                );
                text
            },
            DeriveError::NoFields => {
                let mut text = String::from_str(name);
                text.append(
                    ": Versioned derive macro does not support structs without fields. The struct must have at least one named field.",
                );
                text
            },
            DeriveError::NotAStruct => {
                let mut text = String::from_str(name);
                text.append(": Versioned derive macro only supports structs, not enums or unions.");
                text
            },
        }
    }
}

/// One variant of the version union.
#[derive(Clone, Debug, PartialEq, Eq)]
pub struct Variant {
    /// The identifier of the slot on the wire.
    pub tag: String,
    /// The name of the variant.
    pub ident: String,
    /// The name of the type that the variant holds.
    pub payload: String,
}

/// What a variant is, over mathematical text.
pub struct VariantView {
    pub tag: Seq<char>,
    pub ident: Seq<char>,
    pub payload: Seq<char>,
}

impl View for Variant {
    type V = VariantView;

    open spec fn view(&self) -> VariantView {
        VariantView { tag: self.tag@, ident: self.ident@, payload: self.payload@ }
    }
}

/// The views of a run of variants, in order.
pub open spec fn variant_views(variants: Seq<Variant>) -> Seq<VariantView> {
    Seq::new(variants.len(), |i: int| variants[i]@)
}

/// What is generated for one declaration: the version union of the current
/// type and what its dispatch needs.
#[derive(Clone, Debug, PartialEq, Eq)]
pub struct Expansion {
    /// The visibility of the union: that of the current type.
    pub vis: String,
    /// The name of the current type.
    pub target: String,
    /// The name of the union.
    pub union_name: String,
    /// One variant per declared slot, first to last.
    pub variants: Vec<Variant>,
    /// The named fields of the current type, which the projection copies
    /// into the last slot.
    pub fields: Vec<String>,
}

/// What an expansion is, over mathematical text.
pub struct ExpansionView {
    pub vis: Seq<char>,
    pub target: Seq<char>,
    pub union_name: Seq<char>,
    pub variants: Seq<VariantView>,
    pub fields: Seq<Seq<char>>,
}

impl View for Expansion {
    type V = ExpansionView;

    open spec fn view(&self) -> ExpansionView {
        ExpansionView {
            vis: self.vis@,
            target: self.target@,
            union_name: self.union_name@,
            variants: variant_views(self.variants@),
            fields: text_views(self.fields@),
        }
    }
}

/// The variant that stands for a declared slot: it carries the slot's
/// identifier, is named `Version` followed by that identifier, and holds the
/// slot's type.
pub open spec fn variant_of(slot: (Seq<char>, Seq<char>)) -> VariantView {
    VariantView { tag: slot.0, ident: "Version"@ + slot.0, payload: slot.1 }
}

/// The variants of the union over `slots`, in the order of declaration.
pub open spec fn variants_of(slots: Seq<(Seq<char>, Seq<char>)>) -> Seq<VariantView> {
    Seq::new(slots.len(), |i: int| variant_of(slots[i]))
}

/// What generation gives for a declaration.
///
/// A malformed `versioned` attribute is reported first, then a declaration
/// without slots, then a current type that is no struct with at least one
/// named field.
pub open spec fn derive_outcome(input: DeriveInputView) -> Result<ExpansionView, DeriveError> {
    match extract_outcome(input.attrs) {
        Err(e) => Err(DeriveError::Malformed(e)),
        Ok(slots) => if slots.len() == 0 {
            Err(DeriveError::NoVersions)
        } else {
            match input.data {
                DataView::Struct(FieldsView::Named(fields)) => if fields.len() == 0 {
                    Err(DeriveError::NoFields)
                } else {
                    Ok(
                        ExpansionView {
                            vis: input.vis,
                            target: input.ident,
                            union_name: input.ident + "Version"@,
                            variants: variants_of(slots),
                            fields,
                        },
                    )
                },
                DataView::Struct(FieldsView::Unnamed) => Err(DeriveError::TupleStruct),
                DataView::Struct(FieldsView::Unit) => Err(DeriveError::UnitStruct),
                _ => Err(DeriveError::NotAStruct),
            }
        },
    }
}

/// Whether `variants` are those of a closed union over slots numbered from
/// 1: there is at least one, and the variant at position `i` carries the
/// identifier of slot `i + 1` and is named after it.
pub open spec fn is_closed_union(variants: Seq<VariantView>) -> bool {
    &&& variants.len() >= 1
    &&& forall|i: int|
        0 <= i < variants.len() ==> (#[trigger] variants[i]).tag == tag_text((i + 1) as nat)
            && variants[i].ident == "Version"@ + tag_text((i + 1) as nat)
}

/// Every generated union is closed over its slots: one variant per
/// declared slot, in the order of declaration, each holding the declared
/// type and tagged with its 1-based position.
pub proof fn law_generated_union_is_closed(input: DeriveInputView)
    requires
        derive_outcome(input) is Ok,
    ensures
        extract_outcome(input.attrs) matches Ok(slots) && derive_outcome(input) matches Ok(e)
            && is_closed_union(e.variants) && e.variants.len() == slots.len() && forall|i: int|
            0 <= i < slots.len() ==> (#[trigger] e.variants[i]).payload == slots[i].1,
{
    lemma_extracted_slots_dense(input.attrs, input.attrs.len() as int);
}

/// Generation succeeds for exactly the declarations that declare at least
/// one slot, without a malformed `versioned` attribute, on a struct with at
/// least one named field; it fails for every other.
pub proof fn law_generation_succeeds_exactly(input: DeriveInputView)
    ensures
        derive_outcome(input) is Ok <==> (extract_outcome(input.attrs) matches Ok(slots)
            && slots.len() >= 1 && (input.data matches DataView::Struct(
            FieldsView::Named(fields),
        ) && fields.len() >= 1)),
{
}

/// The projection of every generated union goes into the last declared
/// slot: the variant it builds carries the identifier of the number of
/// declared slots, however many there are.
pub proof fn law_projection_targets_latest(input: DeriveInputView)
    requires
        derive_outcome(input) is Ok,
    ensures
        extract_outcome(input.attrs) matches Ok(slots) && derive_outcome(input) matches Ok(e)
            && e.variants.last().tag == tag_text(slots.len()) && e.variants.last().payload
            == slots.last().1,
{
    law_generated_union_is_closed(input);
}

/// No two variants of a closed union carry the same identifier.
pub proof fn law_tags_distinct(variants: Seq<VariantView>, i: int, j: int)
    requires
        is_closed_union(variants),
        0 <= i < variants.len(),
        0 <= j < variants.len(),
        variants[i].tag == variants[j].tag,
    ensures
        i == j,
{
    lemma_decimal_injective((i + 1) as nat, (j + 1) as nat);
}

/// A closed union has a variant for an identifier exactly when the
/// identifier names one of its slots: any other tag has no variant to
/// decode into.
pub proof fn law_variants_cover_known_tags(variants: Seq<VariantView>, tag: Seq<char>)
    requires
        is_closed_union(variants),
    ensures
        is_known_tag(tag, variants.len()) <==> exists|i: int|
            0 <= i < variants.len() && (#[trigger] variants[i]).tag == tag,
{
    if is_known_tag(tag, variants.len()) {
        let k = choose|k: nat| 1 <= k <= variants.len() && tag == #[trigger] tag_text(k);
        assert(variants[k - 1].tag == tag);
    }
    if exists|i: int| 0 <= i < variants.len() && (#[trigger] variants[i]).tag == tag {
        let i = choose|i: int| 0 <= i < variants.len() && (#[trigger] variants[i]).tag == tag;
        assert(tag == tag_text((i + 1) as nat));
    }
}

/// Copies a run of texts.
fn copy_texts(texts: &Vec<String>) -> (copy: Vec<String>)
    ensures
        text_views(copy@) == text_views(texts@),
{
    let mut copy: Vec<String> = Vec::new();
    let mut i: usize = 0;
    while i < texts.len()
        invariant
            0 <= i <= texts.len(),
            copy@.len() == i,
            forall|j: int| 0 <= j < i ==> copy@[j]@ == texts@[j]@,
        decreases texts.len() - i,
    {
        copy.push(texts[i].clone());
        i = i + 1;
    }
    assert(text_views(copy@) =~= text_views(texts@));
    copy
}

/// Builds the variants of the union over `slots`.
fn build_variants(slots: &Vec<Slot>) -> (variants: Vec<Variant>)
    ensures
        variant_views(variants@) == variants_of(slot_views(slots@)),
{
    let mut variants: Vec<Variant> = Vec::new();
    let mut i: usize = 0;
    while i < slots.len()
        invariant
            0 <= i <= slots.len(),
            variants@.len() == i,
            forall|j: int| 0 <= j < i ==> variants@[j]@ == variant_of(slots@[j]@),
        decreases slots.len() - i,
    {
        let slot = &slots[i];
        let mut ident = String::from_str("Version");
        ident.append(slot.tag.as_str());
        variants.push(Variant { tag: slot.tag.clone(), ident, payload: slot.shape.clone() });
        i = i + 1;
    }
    assert(variant_views(variants@) =~= variants_of(slot_views(slots@)));
    variants
}

/// Generates the version union of a declared type.
///
/// The union gets one variant per declared slot, in the order of
/// declaration; it is named after the current type, shares its visibility,
/// and its projection copies the named fields of the current type into the
/// last slot. The current type has to be a struct with at least one named
/// field: the projection copies field by field.
pub fn derive_versioned(input: &DeriveInput) -> (generated: Result<Expansion, DeriveError>)
    ensures
        match derive_outcome(input@) {
            Ok(expansion) => generated matches Ok(e) && e@ == expansion,
            Err(error) => generated == Err::<Expansion, DeriveError>(error),
        },
        generated matches Ok(e) ==> is_closed_union(e@.variants) && e@.fields.len() >= 1,
{
    proof {
        if derive_outcome(input@) is Ok {
            law_generated_union_is_closed(input@);
        }
    }
    let versions = match extract_versions(input) {
        Ok(versions) => versions,
        Err(e) => {
            return Err(DeriveError::Malformed(e));
        },
    };
    if versions.len() == 0 {
        return Err(DeriveError::NoVersions);
    }
    let fields = match &input.data {
        Data::Struct(Fields::Named(names)) => {
            if names.len() == 0 {
                return Err(DeriveError::NoFields);
            }
            copy_texts(names)
        },
        Data::Struct(Fields::Unnamed) => {
            return Err(DeriveError::TupleStruct);
        },
        Data::Struct(Fields::Unit) => {
            return Err(DeriveError::UnitStruct);
        },
        _ => {
            return Err(DeriveError::NotAStruct);
        },
    };
    let mut union_name = input.ident.clone();
    union_name.append("Version");
    let variants = build_variants(&versions);
    Ok(
        Expansion {
            vis: input.vis.clone(),
            target: input.ident.clone(),
            union_name,
            variants,
            fields,
        },
    )
}

/// The texts of `parts`, one after the other.
pub open spec fn concat_all(parts: Seq<Seq<char>>) -> Seq<char>
    decreases parts.len(),
{
    if parts.len() == 0 {
        Seq::empty()
    } else {
        concat_all(parts.drop_last()) + parts.last()
    }
}

/// The visibility as it stands before the keyword: followed by a blank,
/// unless there is none.
pub open spec fn vis_prefix(vis: Seq<char>) -> Seq<char> {
    if vis.len() == 0 {
        Seq::empty()
    } else {
        vis + " "@
    }
}

/// The declaration of one variant: the variant, renamed on the wire to the
/// identifier of its slot.
pub open spec fn variant_decl(v: VariantView) -> Seq<char> {
    "    #[serde(rename = \""@ + v.tag + "\")]\n    "@ + v.ident + "("@ + v.payload + "),\n"@
}

/// The arm that migrates one variant: its payload goes to `migrate_slot`,
/// and so through the migration edge of its own slot.
pub open spec fn migrate_arm(union_name: Seq<char>, v: VariantView) -> Seq<char> {
    "            "@ + union_name + "::"@ + v.ident
        + "(v) => serde_versioned::migrate_slot(v),\n"@
}

/// The arm that gives the identifier of one variant's slot.
pub open spec fn tag_arm(union_name: Seq<char>, v: VariantView) -> Seq<char> {
    "            "@ + union_name + "::"@ + v.ident + "(_) => \""@ + v.tag + "\".to_string(),\n"@
}

/// The copy of one field of the current value into the last slot.
pub open spec fn field_copy(field: Seq<char>) -> Seq<char> {
    "            "@ + field + ": self."@ + field + ".clone(),\n"@
}

/// The declarations of all variants, in order.
pub open spec fn variant_decls(e: ExpansionView) -> Seq<char> {
    concat_all(Seq::new(e.variants.len(), |i: int| variant_decl(e.variants[i])))
}

/// The migration arms of all variants, in order: one arm per variant and no
/// other, so the dispatch is total without a fallback.
pub open spec fn migrate_arms(e: ExpansionView) -> Seq<char> {
    concat_all(Seq::new(e.variants.len(), |i: int| migrate_arm(e.union_name, e.variants[i])))
}

/// The identifier arms of all variants, in order.
pub open spec fn tag_arms(e: ExpansionView) -> Seq<char> {
    concat_all(Seq::new(e.variants.len(), |i: int| tag_arm(e.union_name, e.variants[i])))
}

/// The copies of all fields, in order.
pub open spec fn field_copies(e: ExpansionView) -> Seq<char> {
    concat_all(Seq::new(e.fields.len(), |i: int| field_copy(e.fields[i])))
}

/// The source of the union: a closed enum, tagged on the wire by the field
/// `version`.
pub open spec fn union_source(e: ExpansionView) -> Seq<char> {
    "#[derive(serde::Serialize, serde::Deserialize)]\n#[serde(tag = \"version\")]\n"@
        + vis_prefix(e.vis) + "enum "@ + e.union_name + " {\n"@ + variant_decls(e) + "}\n"@
}

/// The source of the migration: every variant to the current type.
pub open spec fn migration_source(e: ExpansionView) -> Seq<char> {
    "    fn from_version(version: Self::VersionEnum) -> Result<Self, serde_versioned::VersionConversionError<Self::Cause>> {\n        match version {\n"@
        + migrate_arms(e) + "        }\n    }\n"@
}

/// The source of the projection: the current value, field by field, into
/// the last variant.
pub open spec fn projection_source(e: ExpansionView) -> Seq<char>
    recommends
        e.variants.len() >= 1,
{
    "    fn to_version(&self) -> Self::VersionEnum {\n        "@ + e.union_name + "::"@
        + e.variants.last().ident + "("@ + e.variants.last().payload + " {\n"@ + field_copies(e)
        + "        })\n    }\n"@
}

/// The source of the identifier lookup.
pub open spec fn tag_source(e: ExpansionView) -> Seq<char> {
    "    fn extract_version_string(version: &Self::VersionEnum) -> String {\n        match version {\n"@
        + tag_arms(e) + "        }\n    }\n"@
}

/// The source generated for an expansion: the union, then the dispatch of
/// the current type over it.
pub open spec fn rendered(e: ExpansionView) -> Seq<char>
    recommends
        e.variants.len() >= 1,
{
    union_source(e) + "\nimpl serde_versioned::Versioned for "@ + e.target
        + " {\n    type VersionEnum = "@ + e.union_name
        + ";\n    type Cause = Box<dyn std::error::Error + Send + Sync>;\n\n"@ + migration_source(e) + "\n"@
        + projection_source(e) + "\n"@ + tag_source(e) + "}\n"@
}

/// Appending one more part appends its text.
proof fn lemma_concat_push(parts: Seq<Seq<char>>, part: Seq<char>)
    ensures
        concat_all(parts.push(part)) == concat_all(parts) + part,
{
    assert(parts.push(part).drop_last() =~= parts);
}

impl Expansion {
    /// The variant of the last slot, into which the current value is
    /// projected; none where the union has no variant.
    pub fn latest(&self) -> (latest: Option<&Variant>)
        ensures
            latest is Some <==> self@.variants.len() >= 1,
            latest matches Some(v) ==> v@ == self@.variants.last(),
    {
        let n = self.variants.len();
        if n == 0 {
            None
        } else {
            Some(&self.variants[n - 1])
        }
    }

    /// Checks that the union is closed over slots numbered from 1: it has a
    /// variant, and each variant carries the identifier of its 1-based
    /// position and is named after it.
    pub fn is_closed(&self) -> (closed: bool)
        ensures
            closed == is_closed_union(self@.variants),
    {
        let n = self.variants.len();
        if n == 0 {
            return false;
        }
        let mut i: usize = 0;
        while i < n
            invariant
                n == self.variants.len(),
                n == self@.variants.len(),
                0 <= i <= n,
                forall|j: int|
                    0 <= j < i ==> (#[trigger] self@.variants[j]).tag == tag_text((j + 1) as nat)
                        && self@.variants[j].ident == "Version"@ + tag_text((j + 1) as nat),
            decreases n - i,
        {
            let v = &self.variants[i];
            assert(self@.variants[i as int] == v@);
            let tag = slot_tag(i + 1);
            let mut ident = String::from_str("Version");
            ident.append(tag.as_str());
            if !(v.tag == tag) || !(v.ident == ident) {
                return false;
            }
            i = i + 1;
        }
        true
    }

    /// The position of the first variant that carries the identifier `tag`;
    /// none where no variant carries it.
    pub fn variant_for_tag(&self, tag: &str) -> (found: Option<usize>)
        ensures
            match found {
                Some(i) => i < self@.variants.len() && self@.variants[i as int].tag == tag@
                    && forall|j: int| 0 <= j < i ==> (#[trigger] self@.variants[j]).tag != tag@,
                None => forall|j: int|
                    0 <= j < self@.variants.len() ==> (#[trigger] self@.variants[j]).tag != tag@,
            },
    {
        let wanted = String::from_str(tag);
        let mut i: usize = 0;
        while i < self.variants.len()
            invariant
                0 <= i <= self.variants.len(),
                wanted@ == tag@,
                forall|j: int| 0 <= j < i ==> (#[trigger] self@.variants[j]).tag != tag@,
            decreases self.variants.len() - i,
        {
            assert(self@.variants[i as int] == self.variants@[i as int]@);
            if self.variants[i].tag == wanted {
                return Some(i);
            }
            i = i + 1;
        }
        None
    }

    fn render_union(&self) -> (text: String)
        ensures
            text@ == union_source(self@),
    {
        let ghost e = self@;
        let mut text = String::from_str(
            "#[derive(serde::Serialize, serde::Deserialize)]\n#[serde(tag = \"version\")]\n",
        );
        if self.vis.as_str().unicode_len() > 0 {
            text.append(self.vis.as_str());
            text.append(" ");
        }
        text.append("enum ");
        text.append(self.union_name.as_str());
        text.append(" {\n");
        let ghost head = text@;
        let mut i: usize = 0;
        while i < self.variants.len()
            invariant
                e == self@,
                0 <= i <= self.variants.len(),
                text@ == head + concat_all(
                    Seq::new(i as nat, |j: int| variant_decl(e.variants[j])),
                ),
            decreases self.variants.len() - i,
        {
            let v = &self.variants[i];
            let ghost before = Seq::new(i as nat, |j: int| variant_decl(e.variants[j]));
            proof {
                assert(e.variants[i as int] == v@);
                lemma_concat_push(before, variant_decl(v@));
                assert(before.push(variant_decl(v@)) =~= Seq::new(
                    (i + 1) as nat,
                    |j: int| variant_decl(e.variants[j]),
                ));
            }
            text.append("    #[serde(rename = \"");
            text.append(v.tag.as_str());
            text.append("\")]\n    ");
            text.append(v.ident.as_str());
            text.append("(");
            text.append(v.payload.as_str());
            text.append("),\n");
            assert(text@ =~= head + concat_all(before) + variant_decl(v@));
            i = i + 1;
        }
        text.append("}\n");
        assert(text@ =~= union_source(e));
        text
    }

    fn render_migration(&self) -> (text: String)
        ensures
            text@ == migration_source(self@),
    {
        let ghost e = self@;
        let mut text = String::from_str(
            "    fn from_version(version: Self::VersionEnum) -> Result<Self, serde_versioned::VersionConversionError<Self::Cause>> {\n        match version {\n",
        );
        let ghost head = text@;
        let mut i: usize = 0;
        while i < self.variants.len()
            invariant
                e == self@,
                0 <= i <= self.variants.len(),
                text@ == head + concat_all(
                    Seq::new(i as nat, |j: int| migrate_arm(e.union_name, e.variants[j])),
                ),
            decreases self.variants.len() - i,
        {
            let v = &self.variants[i];
            let ghost before = Seq::new(i as nat, |j: int| migrate_arm(e.union_name, e.variants[j]));
            proof {
                assert(e.variants[i as int] == v@);
                lemma_concat_push(before, migrate_arm(e.union_name, v@));
                assert(before.push(migrate_arm(e.union_name, v@)) =~= Seq::new(
                    (i + 1) as nat,
                    |j: int| migrate_arm(e.union_name, e.variants[j]),
                ));
            }
            text.append("            ");
            text.append(self.union_name.as_str());
            text.append("::");
            text.append(v.ident.as_str());
            text.append("(v) => serde_versioned::migrate_slot(v),\n");
            assert(text@ =~= head + concat_all(before) + migrate_arm(e.union_name, v@));
            i = i + 1;
        }
        text.append("        }\n    }\n");
        assert(text@ =~= migration_source(e));
        text
    }

    fn render_projection(&self) -> (text: String)
        requires
            self@.variants.len() >= 1,
        ensures
            text@ == projection_source(self@),
    {
        let ghost e = self@;
        let last = &self.variants[self.variants.len() - 1];
        assert(last@ == e.variants.last());
        let mut text = String::from_str("    fn to_version(&self) -> Self::VersionEnum {\n        ");
        text.append(self.union_name.as_str());
        text.append("::");
        text.append(last.ident.as_str());
        text.append("(");
        text.append(last.payload.as_str());
        text.append(" {\n");
        let ghost head = text@;
        let mut i: usize = 0;
        while i < self.fields.len()
            invariant
                e == self@,
                0 <= i <= self.fields.len(),
                text@ == head + concat_all(Seq::new(i as nat, |j: int| field_copy(e.fields[j]))),
            decreases self.fields.len() - i,
        {
            let field = &self.fields[i];
            let ghost before = Seq::new(i as nat, |j: int| field_copy(e.fields[j]));
            proof {
                assert(e.fields[i as int] == field@);
                lemma_concat_push(before, field_copy(field@));
                assert(before.push(field_copy(field@)) =~= Seq::new(
                    (i + 1) as nat,
                    |j: int| field_copy(e.fields[j]),
                ));
            }
            text.append("            ");
            text.append(field.as_str());
            text.append(": self.");
            text.append(field.as_str());
            text.append(".clone(),\n");
            assert(text@ =~= head + concat_all(before) + field_copy(field@));
            i = i + 1;
        }
        text.append("        })\n    }\n");
        assert(text@ =~= projection_source(e));
        text
    }

    fn render_tags(&self) -> (text: String)
        ensures
            text@ == tag_source(self@),
    {
        let ghost e = self@;
        let mut text = String::from_str(
            "    fn extract_version_string(version: &Self::VersionEnum) -> String {\n        match version {\n",
        );
        let ghost head = text@;
        let mut i: usize = 0;
        while i < self.variants.len()
            invariant
                e == self@,
                0 <= i <= self.variants.len(),
                text@ == head + concat_all(
                    Seq::new(i as nat, |j: int| tag_arm(e.union_name, e.variants[j])),
                ),
            decreases self.variants.len() - i,
        {
            let v = &self.variants[i];
            let ghost before = Seq::new(i as nat, |j: int| tag_arm(e.union_name, e.variants[j]));
            proof {
                assert(e.variants[i as int] == v@);
                lemma_concat_push(before, tag_arm(e.union_name, v@));
                assert(before.push(tag_arm(e.union_name, v@)) =~= Seq::new(
                    (i + 1) as nat,
                    |j: int| tag_arm(e.union_name, e.variants[j]),
                ));
            }
            text.append("            ");
            text.append(self.union_name.as_str());
            text.append("::");
            text.append(v.ident.as_str());
            text.append("(_) => \"");
            text.append(v.tag.as_str());
            text.append("\".to_string(),\n");
            assert(text@ =~= head + concat_all(before) + tag_arm(e.union_name, v@));
            i = i + 1;
        }
        text.append("        }\n    }\n");
        assert(text@ =~= tag_source(e));
        text
    }

    /// Writes the generated source: the union, then the dispatch of the
    /// current type over it. An expansion without variants has no last slot
    /// to project into, and no source.
    pub fn render(&self) -> (source: Option<String>)
        ensures
            source is Some <==> self@.variants.len() >= 1,
            source matches Some(text) ==> text@ == rendered(self@),
    {
        if self.variants.len() == 0 {
            return None;
        }
        let mut text = self.render_union();
        text.append("\nimpl serde_versioned::Versioned for ");
        text.append(self.target.as_str());
        text.append(" {\n    type VersionEnum = ");
        text.append(self.union_name.as_str());
        text.append(";\n    type Cause = Box<dyn std::error::Error + Send + Sync>;\n\n");
        let migration = self.render_migration();
        text.append(migration.as_str());
        text.append("\n");
        let projection = self.render_projection();
        text.append(projection.as_str());
        text.append("\n");
        let tags = self.render_tags();
        text.append(tags.as_str());
        text.append("}\n");
        assert(text@ =~= rendered(self@));
        Some(text)
    }
}

} // verus!
