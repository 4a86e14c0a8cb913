//! The schema declaration: the ordered list of historical shapes that a
//! type names in `versioned(versions = [First, Second, ...])`.
//!
//! Slots are numbered by position, starting at 1; the last one has the shape
//! of the current type.

use vstd::prelude::*;
use crate::tag::{slot_tag, tag_text};
use crate::token::{token_views, visible, visible_tokens, Delimiter, Token, TokenView};

verus! {

/// What is wrong with an argument list.
#[derive(Clone, Copy, Debug, PartialEq, Eq, Structural)]
pub enum SyntaxErrorKind {
    /// The list does not start with a word.
    MissingName,
    /// The list starts with a word other than `versions`.
    WrongName,
    /// No `=` follows `versions`.
    MissingEquals,
    /// No `[` follows the `=`.
    MissingBracket,
    /// Something other than a bare type name stands where one is due.
    ExpectedTypeName,
    /// Something other than `,` or `]` follows a type name.
    ExpectedComma,
    /// The tokens end before the `]`.
    Unclosed,
    /// Tokens follow the `]`.
    TrailingTokens,
}

/// A malformed argument list: what is wrong, and the position of the first
/// token that does not fit (the number of tokens, where they end too early).
#[derive(Clone, Copy, Debug, PartialEq, Eq, Structural)]
pub struct SyntaxError {
    pub kind: SyntaxErrorKind,
    pub at: usize,
}

/// One declared slot: its identifier on the wire and the name of the type
/// that holds its shape.
#[derive(Clone, Debug, PartialEq, Eq)]
pub struct Slot {
    pub tag: String,
    pub shape: String,
}

impl View for Slot {
    type V = (Seq<char>, Seq<char>);

    open spec fn view(&self) -> (Seq<char>, Seq<char>) {
        (self.tag@, self.shape@)
    }
}

/// The views of a run of slots, in order.
pub open spec fn slot_views(slots: Seq<Slot>) -> Seq<(Seq<char>, Seq<char>)> {
    Seq::new(slots.len(), |i: int| slots[i]@)
}

/// The slots that a list of type names declares: the name at position `i`
/// gets the identifier of slot `i + 1`.
pub open spec fn numbered(names: Seq<Seq<char>>) -> Seq<(Seq<char>, Seq<char>)> {
    Seq::new(names.len(), |i: int| (tag_text((i + 1) as nat), names[i]))
}

/// Whether slots are numbered densely from 1 in their order.
pub open spec fn densely_numbered(slots: Seq<(Seq<char>, Seq<char>)>) -> bool {
    forall|i: int| 0 <= i < slots.len() ==> (#[trigger] slots[i]).0 == tag_text((i + 1) as nat)
}

/// Whether the token at offset `k` behind the `[` continues the list: a
/// type name at an even offset, a comma at an odd one.
pub open spec fn continues_list(tokens: Seq<TokenView>, k: int) -> bool {
    if k % 2 == 0 {
        tokens[3 + k] is Ident
    } else {
        tokens[3 + k] == TokenView::Punct(',')
    }
}

/// The number of tokens behind the `[` that continue the list, counted from
/// offset `k` on.
pub open spec fn list_extent(tokens: Seq<TokenView>, k: int) -> int
    decreases tokens.len() - k,
{
    if k < 0 || 3 + k >= tokens.len() || !continues_list(tokens, k) {
        k
    } else {
        list_extent(tokens, k + 1)
    }
}

/// The type names among the first `k` tokens behind the `[`.
pub open spec fn list_names(tokens: Seq<TokenView>, k: int) -> Seq<Seq<char>> {
    Seq::new(((k + 1) / 2) as nat, |j: int| tokens[3 + 2 * j]->Ident_0)
}

/// What parsing the visible tokens of an argument list gives: the declared
/// type names in order, or the first thing wrong with it.
///
/// The accepted form is `versions = [` followed by bare type names separated
/// by commas, an optional trailing comma, and `]`, with nothing behind it.
pub open spec fn parse_outcome(tokens: Seq<TokenView>) -> Result<Seq<Seq<char>>, SyntaxError> {
    if tokens.len() == 0 || !(tokens[0] is Ident) {
        Err(SyntaxError { kind: SyntaxErrorKind::MissingName, at: 0 })
    } else if tokens[0] != TokenView::Ident("versions"@) {
        Err(SyntaxError { kind: SyntaxErrorKind::WrongName, at: 0 })
    } else if tokens.len() < 2 || tokens[1] != TokenView::Punct('=') {
        Err(SyntaxError { kind: SyntaxErrorKind::MissingEquals, at: 1 })
    } else if tokens.len() < 3 || tokens[2] != TokenView::Open(Delimiter::Bracket) {
        Err(SyntaxError { kind: SyntaxErrorKind::MissingBracket, at: 2 })
    } else {
        let k = list_extent(tokens, 0);
        let at = 3 + k;
        if at == tokens.len() {
            Err(SyntaxError { kind: SyntaxErrorKind::Unclosed, at: at as usize })
        } else if tokens[at] != TokenView::Close(Delimiter::Bracket) {
            if k % 2 == 0 {
                Err(SyntaxError { kind: SyntaxErrorKind::ExpectedTypeName, at: at as usize })
            } else {
                Err(SyntaxError { kind: SyntaxErrorKind::ExpectedComma, at: at as usize })
            }
        } else if at + 1 != tokens.len() {
            Err(SyntaxError { kind: SyntaxErrorKind::TrailingTokens, at: (at + 1) as usize })
        } else {
            Ok(list_names(tokens, k))
        }
    }
}

/// The number of tokens between the brackets of a list of `n` type names,
/// with or without a comma behind the last one.
pub open spec fn item_count(n: nat, trailing: bool) -> nat {
    if n == 0 {
        0
    } else if trailing {
        2 * n
    } else {
        (2 * n - 1) as nat
    }
}

/// The tokens between the brackets of a list of type names: the names in
/// order, a comma between any two of them, and one behind the last where
/// `trailing` says so.
pub open spec fn item_tokens(names: Seq<Seq<char>>, trailing: bool) -> Seq<TokenView> {
    Seq::new(
        item_count(names.len(), trailing),
        |k: int|
            if k % 2 == 0 {
                TokenView::Ident(names[k / 2])
            } else {
                TokenView::Punct(',')
            },
    )
}

/// The argument list that declares `names`: `versions = [`, the names, `]`.
pub open spec fn list_tokens(names: Seq<Seq<char>>, trailing: bool) -> Seq<TokenView> {
    seq![
        TokenView::Ident("versions"@),
        TokenView::Punct('='),
        TokenView::Open(Delimiter::Bracket),
    ] + item_tokens(names, trailing) + seq![TokenView::Close(Delimiter::Bracket)]
}

/// Every token before the end of the list continues it.
proof fn lemma_extent_continues(tokens: Seq<TokenView>, from: int, j: int)
    requires
        0 <= from <= j < list_extent(tokens, from),
    ensures
        continues_list(tokens, j),
        3 + j < tokens.len(),
    decreases j - from,
{
    if from < j {
        lemma_extent_continues(tokens, from + 1, j);
    }
}

/// The list ends no earlier than where it is scanned from.
proof fn lemma_extent_bounds(tokens: Seq<TokenView>, from: int)
    requires
        0 <= from,
    ensures
        from <= list_extent(tokens, from),
        3 + from <= tokens.len() ==> 3 + list_extent(tokens, from) <= tokens.len(),
    decreases tokens.len() - from,
{
    if !(3 + from >= tokens.len() || !continues_list(tokens, from)) {
        lemma_extent_bounds(tokens, from + 1);
    }
}

/// Where all tokens from `from` up to `end` continue the list and the one
/// at `end` does not, the list ends at `end`.
proof fn lemma_extent_reaches(tokens: Seq<TokenView>, from: int, end: int)
    requires
        0 <= from <= end,
        3 + end < tokens.len(),
        forall|j: int| from <= j < end ==> continues_list(tokens, j),
        !continues_list(tokens, end),
    ensures
        list_extent(tokens, from) == end,
    decreases end - from,
{
    if from < end {
        lemma_extent_reaches(tokens, from + 1, end);
    }
}

/// The grammar accepts every well-formed argument list and reads the names
/// it declares: `versions = [A, B, C]`, with or without a comma behind the
/// last name, and `versions = []`.
pub proof fn law_list_is_accepted(names: Seq<Seq<char>>, trailing: bool)
    requires
        trailing ==> names.len() >= 1,
    ensures
        parse_outcome(list_tokens(names, trailing)) == Ok::<Seq<Seq<char>>, SyntaxError>(names),
{
    let tokens = list_tokens(names, trailing);
    let count = item_count(names.len(), trailing) as int;
    assert(tokens.len() == count + 4);
    assert forall|j: int| 0 <= j < count implies continues_list(tokens, j) by {
        assert(tokens[3 + j] == item_tokens(names, trailing)[j]);
    }
    assert(tokens[3 + count] == TokenView::Close(Delimiter::Bracket));
    lemma_extent_reaches(tokens, 0, count);
    let read = list_names(tokens, count);
    assert(read.len() == names.len());
    assert forall|j: int| 0 <= j < names.len() implies read[j] == names[j] by {
        assert(tokens[3 + 2 * j] == item_tokens(names, trailing)[2 * j]);
    }
    assert(read =~= names);
}

/// The grammar accepts nothing else: an argument list that parses is the
/// well-formed list of the names read from it.
pub proof fn law_accepted_is_list(tokens: Seq<TokenView>)
    requires
        parse_outcome(tokens) is Ok,
    ensures
        parse_outcome(tokens) matches Ok(names) && (tokens == list_tokens(names, false) || tokens
            == list_tokens(names, true)),
{
    let k = list_extent(tokens, 0);
    lemma_extent_bounds(tokens, 0);
    let names = list_names(tokens, k);
    let trailing = k > 0 && k % 2 == 0;
    let expected = list_tokens(names, trailing);
    assert(item_count(names.len(), trailing) == k);
    assert(expected.len() == tokens.len());
    assert forall|i: int| 0 <= i < tokens.len() implies tokens[i] == expected[i] by {
        if 3 <= i < 3 + k {
            let j = i - 3;
            lemma_extent_continues(tokens, 0, j);
            assert(expected[i] == item_tokens(names, trailing)[j]);
            if j % 2 == 0 {
                assert(names[j / 2] == tokens[3 + 2 * (j / 2)]->Ident_0);
            }
        }
    }
    assert(tokens =~= expected);
}

/// The parsed list of versions of one declaration.
#[derive(Clone, Debug, PartialEq, Eq)]
pub struct VersionsList {
    /// The declared slots, first to last.
    pub versions: Vec<Slot>,
}

impl View for VersionsList {
    type V = Seq<(Seq<char>, Seq<char>)>;

    open spec fn view(&self) -> Seq<(Seq<char>, Seq<char>)> {
        slot_views(self.versions@)
    }
}

impl VersionsList {
    /// Parses the argument list `versions = [First, Second, ...]`.
    ///
    /// Each type name gets the identifier of its 1-based position. Anything
    /// that departs from the accepted form is reported, never skipped. The
    /// delimiters of invisible groups do not count: positions are those
    /// among the other tokens.
    pub fn parse(tokens: &[Token]) -> (parsed: Result<VersionsList, SyntaxError>)
        ensures
            match parse_outcome(visible(token_views(tokens@))) {
                Ok(names) => parsed matches Ok(list) && list@ == numbered(names),
                Err(e) => parsed == Err::<VersionsList, SyntaxError>(e),
            },
    {
        let kept = visible_tokens(tokens);
        VersionsList::parse_visible(kept.as_slice())
    }

    /// Parses an argument list of visible tokens.
    fn parse_visible(tokens: &[Token]) -> (parsed: Result<VersionsList, SyntaxError>)
        ensures
            match parse_outcome(token_views(tokens@)) {
                Ok(names) => parsed matches Ok(list) && list@ == numbered(names),
                Err(e) => parsed == Err::<VersionsList, SyntaxError>(e),
            },
    {
        let ghost views = token_views(tokens@);
        let n = tokens.len();
        if n == 0 {
            return Err(SyntaxError { kind: SyntaxErrorKind::MissingName, at: 0 });
        }
        match &tokens[0] {
            Token::Ident(_) => {},
            _ => {
                return Err(SyntaxError { kind: SyntaxErrorKind::MissingName, at: 0 });
            },
        }
        if !tokens[0].is_word("versions") {
            return Err(SyntaxError { kind: SyntaxErrorKind::WrongName, at: 0 });
        }
        if n < 2 || !tokens[1].is_punct('=') {
            return Err(SyntaxError { kind: SyntaxErrorKind::MissingEquals, at: 1 });
        }
        if n < 3 || !tokens[2].opens(Delimiter::Bracket) {
            return Err(SyntaxError { kind: SyntaxErrorKind::MissingBracket, at: 2 });
        }
        let mut versions: Vec<Slot> = Vec::new();
        let mut at: usize = 3;
        let mut open = true;
        while at < n && open
            invariant
                views == token_views(tokens@),
                n == tokens.len(),
                3 <= at <= n,
                list_extent(views, 0) == list_extent(views, at - 3),
                !open ==> at < n && !continues_list(views, at - 3),
                versions@.len() == (at - 3 + 1) / 2,
                slot_views(versions@) == numbered(list_names(views, at - 3)),
            decreases (n - at) + (if open { 1int } else { 0int }),
        {
            let ghost k = at - 3;
            let ghost before = list_names(views, k);
            if (at - 3) % 2 == 0 {
                match &tokens[at] {
                    Token::Ident(name) => {
                        let ghost earlier = versions@;
                        let slot = Slot { tag: slot_tag(versions.len() + 1), shape: name.clone() };
                        versions.push(slot);
                        proof {
                            let after = list_names(views, k + 1);
                            let last = earlier.len() as int;
                            assert(after.len() == before.len() + 1);
                            assert(3 + 2 * last == at);
                            assert(views[at as int] == tokens@[at as int]@);
                            assert(after[last] == name@);
                            assert forall|i: int| 0 <= i < after.len() implies slot_views(
                                versions@,
                            )[i] == #[trigger] numbered(after)[i] by {
                                if i < last {
                                    assert(versions@[i] == earlier[i]);
                                    assert(slot_views(earlier)[i] == numbered(before)[i]);
                                    assert(after[i] == before[i]);
                                }
                            }
                            assert(slot_views(versions@) =~= numbered(after));
                        }
                        at = at + 1;
                    },
                    _ => {
                        open = false;
                    },
                }
            } else {
                if tokens[at].is_punct(',') {
                    proof {
                        assert(list_names(views, k + 1) =~= before);
                    }
                    at = at + 1;
                } else {
                    open = false;
                }
            }
        }
        let ghost k = at - 3;
        assert(list_extent(views, 0) == k);
        if at == n {
            return Err(SyntaxError { kind: SyntaxErrorKind::Unclosed, at });
        }
        if !tokens[at].closes(Delimiter::Bracket) {
            if (at - 3) % 2 == 0 {
                return Err(SyntaxError { kind: SyntaxErrorKind::ExpectedTypeName, at });
            } else {
                return Err(SyntaxError { kind: SyntaxErrorKind::ExpectedComma, at });
            }
        }
        if at + 1 != n {
            return Err(SyntaxError { kind: SyntaxErrorKind::TrailingTokens, at: at + 1 });
        }
        Ok(VersionsList { versions })
    }
}

/// The form of an attribute behind its path.
#[derive(Clone, Debug, PartialEq, Eq)]
pub enum Meta {
    /// The path alone, as in `versioned`.
    Path,
    /// The path and a delimited argument list, as in `versioned(...)`; the
    /// tokens are those between the delimiters.
    List(Vec<Token>),
    /// The path, `=` and a value, as in `versioned = "..."`.
    NameValue,
}

/// What an attribute's form is, over mathematical text.
pub enum MetaView {
    Path,
    List(Seq<TokenView>),
    NameValue,
}

impl View for Meta {
    type V = MetaView;

    open spec fn view(&self) -> MetaView {
        match self {
            Meta::Path => MetaView::Path,
            Meta::List(tokens) => MetaView::List(token_views(tokens@)),
            Meta::NameValue => MetaView::NameValue,
        }
    }
}

/// One attribute of a declaration: its path as written, and its form.
#[derive(Clone, Debug, PartialEq, Eq)]
pub struct Attribute {
    pub path: String,
    pub meta: Meta,
}

/// What an attribute is, over mathematical text.
pub struct AttributeView {
    pub path: Seq<char>,
    pub meta: MetaView,
}

impl View for Attribute {
    type V = AttributeView;

    open spec fn view(&self) -> AttributeView {
        AttributeView { path: self.path@, meta: self.meta@ }
    }
}

/// The views of a run of attributes, in order.
pub open spec fn attribute_views(attrs: Seq<Attribute>) -> Seq<AttributeView> {
    Seq::new(attrs.len(), |i: int| attrs[i]@)
}

/// The fields of a struct.
#[derive(Clone, Debug, PartialEq, Eq)]
pub enum Fields {
    /// Named fields, by name and in order, as in `struct S { a: A, b: B }`.
    Named(Vec<String>),
    /// Positional fields, as in `struct S(A, B);`.
    Unnamed,
    /// No fields, as in `struct S;`.
    Unit,
}

/// What the fields of a struct are, over mathematical text.
pub enum FieldsView {
    Named(Seq<Seq<char>>),
    Unnamed,
    Unit,
}

/// The views of a run of texts, in order.
pub open spec fn text_views(texts: Seq<String>) -> Seq<Seq<char>> {
    Seq::new(texts.len(), |i: int| texts[i]@)
}

impl View for Fields {
    type V = FieldsView;

    open spec fn view(&self) -> FieldsView {
        match self {
            Fields::Named(names) => FieldsView::Named(text_views(names@)),
            Fields::Unnamed => FieldsView::Unnamed,
            Fields::Unit => FieldsView::Unit,
        }
    }
}

/// The kind of item that a declaration declares.
#[derive(Clone, Debug, PartialEq, Eq)]
pub enum Data {
    Struct(Fields),
    Enum,
    Union,
}

/// What kind of item a declaration declares, over mathematical text.
pub enum DataView {
    Struct(FieldsView),
    Enum,
    Union,
}

impl View for Data {
    type V = DataView;

    open spec fn view(&self) -> DataView {
        match self {
            Data::Struct(fields) => DataView::Struct(fields@),
            Data::Enum => DataView::Enum,
            Data::Union => DataView::Union,
        }
    }
}

/// The declaration of the current type, as far as generation reads it.
#[derive(Clone, Debug, PartialEq, Eq)]
pub struct DeriveInput {
    /// The attributes on the declaration, in order.
    pub attrs: Vec<Attribute>,
    /// The visibility as written (`pub`, `pub(crate)`, ...); empty for a
    /// private item.
    pub vis: String,
    /// The name of the type.
    pub ident: String,
    /// What is declared.
    pub data: Data,
}

/// What a declaration is, over mathematical text.
pub struct DeriveInputView {
    pub attrs: Seq<AttributeView>,
    pub vis: Seq<char>,
    pub ident: Seq<char>,
    pub data: DataView,
}

impl View for DeriveInput {
    type V = DeriveInputView;

    open spec fn view(&self) -> DeriveInputView {
        DeriveInputView {
            attrs: attribute_views(self.attrs@),
            vis: self.vis@,
            ident: self.ident@,
            data: self.data@,
        }
    }
}

/// Why a `versioned` attribute declares nothing usable.
#[derive(Clone, Copy, Debug, PartialEq, Eq, Structural)]
pub enum Problem {
    /// The attribute has no delimited argument list.
    NotAList,
    /// The argument list departs from `versions = [First, Second, ...]`.
    Syntax(SyntaxError),
}

/// A malformed `versioned` attribute: its position among the attributes of
/// the declaration, and what is wrong with it.
#[derive(Clone, Copy, Debug, PartialEq, Eq, Structural)]
pub struct Malformed {
    pub attribute: usize,
    pub problem: Problem,
}

/// Whether an attribute is a schema declaration: its path is the single
/// word `versioned`.
pub open spec fn is_versioned(attr: AttributeView) -> bool {
    attr.path == "versioned"@
}

/// What one `versioned` attribute declares.
pub open spec fn attribute_outcome(attr: AttributeView) -> Result<Seq<Seq<char>>, Problem> {
    match attr.meta {
        MetaView::List(tokens) => match parse_outcome(visible(tokens)) {
            Ok(names) => Ok(names),
            Err(e) => Err(Problem::Syntax(e)),
        },
        _ => Err(Problem::NotAList),
    }
}

/// What the first `n` attributes declare together: the slots of the last
/// `versioned` attribute among them, none where there is no such attribute,
/// or the first malformed `versioned` attribute.
pub open spec fn extract_prefix(attrs: Seq<AttributeView>, n: int) -> Result<
    Seq<(Seq<char>, Seq<char>)>,
    Malformed,
>
    decreases n,
{
    if n <= 0 {
        Ok(Seq::empty())
    } else {
        match extract_prefix(attrs, n - 1) {
            Err(e) => Err(e),
            Ok(earlier) => if !is_versioned(attrs[n - 1]) {
                Ok(earlier)
            } else {
                match attribute_outcome(attrs[n - 1]) {
                    Ok(names) => Ok(numbered(names)),
                    Err(problem) => Err(Malformed { attribute: (n - 1) as usize, problem }),
                }
            },
        }
    }
}

/// What the attributes of a declaration declare.
pub open spec fn extract_outcome(attrs: Seq<AttributeView>) -> Result<
    Seq<(Seq<char>, Seq<char>)>,
    Malformed,
> {
    extract_prefix(attrs, attrs.len() as int)
}

/// Whatever the attributes declare is numbered densely from 1.
pub proof fn lemma_extracted_slots_dense(attrs: Seq<AttributeView>, n: int)
    ensures
        extract_prefix(attrs, n) matches Ok(slots) ==> densely_numbered(slots),
    decreases n,
{
    if n > 0 {
        lemma_extracted_slots_dense(attrs, n - 1);
    }
}

/// A malformed attribute among the first `m` is still the outcome when more
/// attributes are taken into account.
pub proof fn lemma_malformed_persists(attrs: Seq<AttributeView>, m: int, n: int)
    requires
        m <= n,
        extract_prefix(attrs, m) is Err,
    ensures
        extract_prefix(attrs, n) == extract_prefix(attrs, m),
    decreases n - m,
{
    if m < n {
        lemma_malformed_persists(attrs, m, n - 1);
    }
}

/// Whether the attribute at position `i` is a malformed `versioned`
/// attribute.
pub open spec fn is_malformed_at(attrs: Seq<AttributeView>, i: int) -> bool {
    0 <= i < attrs.len() && is_versioned(attrs[i]) && attribute_outcome(attrs[i]) is Err
}

/// Without a malformed attribute among the first `n`, they declare slots.
proof fn lemma_well_formed_prefix(attrs: Seq<AttributeView>, n: int)
    requires
        0 <= n <= attrs.len(),
        forall|j: int| 0 <= j < n ==> !is_malformed_at(attrs, j),
    ensures
        extract_prefix(attrs, n) is Ok,
    decreases n,
{
    if n > 0 {
        lemma_well_formed_prefix(attrs, n - 1);
        assert(!is_malformed_at(attrs, n - 1));
    }
}

/// Attributes other than `versioned` behind the first `m` change nothing.
proof fn lemma_others_change_nothing(attrs: Seq<AttributeView>, m: int, n: int)
    requires
        0 <= m <= n <= attrs.len(),
        forall|j: int| m <= j < n ==> !is_versioned(#[trigger] attrs[j]),
    ensures
        extract_prefix(attrs, n) == extract_prefix(attrs, m),
    decreases n - m,
{
    if m < n {
        lemma_others_change_nothing(attrs, m, n - 1);
        assert(!is_versioned(attrs[n - 1]));
    }
}

/// The first malformed `versioned` attribute is what extraction reports,
/// whatever stands behind it.
pub proof fn law_first_malformed_is_reported(attrs: Seq<AttributeView>, i: int)
    requires
        is_malformed_at(attrs, i),
        forall|j: int| 0 <= j < i ==> !is_malformed_at(attrs, j),
    ensures
        extract_outcome(attrs) == Err::<Seq<(Seq<char>, Seq<char>)>, Malformed>(
            Malformed { attribute: i as usize, problem: attribute_outcome(attrs[i])->Err_0 },
        ),
{
    lemma_well_formed_prefix(attrs, i);
    lemma_malformed_persists(attrs, i + 1, attrs.len() as int);
}

/// Where no `versioned` attribute is malformed, the last of them is the
/// declaration: its names are the slots, numbered from 1.
pub proof fn law_last_declaration_counts(attrs: Seq<AttributeView>, i: int)
    requires
        forall|j: int| 0 <= j < attrs.len() ==> !is_malformed_at(attrs, j),
        0 <= i < attrs.len(),
        is_versioned(attrs[i]),
        forall|j: int| i < j < attrs.len() ==> !is_versioned(#[trigger] attrs[j]),
    ensures
        extract_outcome(attrs) == Ok::<Seq<(Seq<char>, Seq<char>)>, Malformed>(
            numbered(attribute_outcome(attrs[i])->Ok_0),
        ),
{
    lemma_well_formed_prefix(attrs, i);
    assert(!is_malformed_at(attrs, i));
    lemma_others_change_nothing(attrs, i + 1, attrs.len() as int);
}

/// Where no attribute is a `versioned` attribute, no slot is declared.
pub proof fn law_no_declaration_no_slots(attrs: Seq<AttributeView>)
    requires
        forall|j: int| 0 <= j < attrs.len() ==> !is_versioned(#[trigger] attrs[j]),
    ensures
        extract_outcome(attrs) == Ok::<Seq<(Seq<char>, Seq<char>)>, Malformed>(Seq::empty()),
{
    lemma_others_change_nothing(attrs, 0, attrs.len() as int);
}

/// Collects the declared slots from the attributes of a declaration.
///
/// Attributes other than `versioned` are passed over. Of several
/// well-formed `versioned` attributes the last one counts. A malformed one
/// is an error, the first of them in order; it never reads as "no versions".
pub fn extract_versions(input: &DeriveInput) -> (extracted: Result<Vec<Slot>, Malformed>)
    ensures
        match extract_outcome(input@.attrs) {
            Ok(slots) => extracted matches Ok(versions) && slot_views(versions@) == slots,
            Err(e) => extracted == Err::<Vec<Slot>, Malformed>(e),
        },
{
    let attrs = &input.attrs;
    let ghost views = attribute_views(attrs@);
    assert(input@.attrs == views && views.len() == attrs@.len());
    let mut versions: Vec<Slot> = Vec::new();
    let mut i: usize = 0;
    assert(slot_views(versions@) =~= Seq::empty());
    while i < attrs.len()
        invariant
            views == attribute_views(attrs@),
            views == input@.attrs,
            views.len() == attrs@.len(),
            0 <= i <= attrs.len(),
            extract_prefix(views, i as int) == Ok::<Seq<(Seq<char>, Seq<char>)>, Malformed>(
                slot_views(versions@),
            ),
        decreases attrs.len() - i,
    {
        let attr = &attrs[i];
        assert(views[i as int] == attr@);
        let expected = String::from_str("versioned");
        if attr.path == expected {
            match &attr.meta {
                Meta::List(tokens) => {
                    match VersionsList::parse(tokens) {
                        Ok(list) => {
                            versions = list.versions;
                        },
                        Err(e) => {
                            proof {
                                lemma_malformed_persists(views, i + 1, attrs@.len() as int);
                            }
                            return Err(Malformed { attribute: i, problem: Problem::Syntax(e) });
                        },
                    }
                },
                _ => {
                    proof {
                        lemma_malformed_persists(views, i + 1, attrs@.len() as int);
                    }
                    return Err(Malformed { attribute: i, problem: Problem::NotAList });
                },
            }
        }
        i = i + 1;
    }
    Ok(versions)
}

/// What is wrong with a `versioned` attribute, in words.
pub open spec fn problem_text(problem: Problem) -> Seq<char> {
    match problem {
        Problem::NotAList => "expected an argument list"@,
        Problem::Syntax(e) => match e.kind {
            SyntaxErrorKind::MissingName => "expected `versions`"@,
            SyntaxErrorKind::WrongName => "expected `versions`, found another name"@,
            SyntaxErrorKind::MissingEquals => "expected `=` after `versions`"@,
            SyntaxErrorKind::MissingBracket => "expected `[` after `=`"@,
            SyntaxErrorKind::ExpectedTypeName => "expected a bare type name"@,
            SyntaxErrorKind::ExpectedComma => "expected `,` or `]` after a type name"@,
            SyntaxErrorKind::Unclosed => "expected `]`"@,
            SyntaxErrorKind::TrailingTokens => "unexpected tokens after `]`"@,
        },
    }
}

impl Problem {
    /// What is wrong, in words.
    pub fn describe(&self) -> (text: &'static str)
        ensures
            text@ == problem_text(*self),
    {
        match self {
            Problem::NotAList => "expected an argument list",
            Problem::Syntax(e) => match e.kind {
                SyntaxErrorKind::MissingName => "expected `versions`",
                SyntaxErrorKind::WrongName => "expected `versions`, found another name",
                SyntaxErrorKind::MissingEquals => "expected `=` after `versions`",
                SyntaxErrorKind::MissingBracket => "expected `[` after `=`",
                SyntaxErrorKind::ExpectedTypeName => "expected a bare type name",
                SyntaxErrorKind::ExpectedComma => "expected `,` or `]` after a type name",
                SyntaxErrorKind::Unclosed => "expected `]`",
                SyntaxErrorKind::TrailingTokens => "unexpected tokens after `]`",
            },
        }
    }
}

/// What a malformed argument list tells its author, where `tokens` are the
/// visible tokens that were parsed: a wrong name is named, anything else is
/// described, and the accepted form follows.
pub open spec fn syntax_text(error: SyntaxError, tokens: Seq<TokenView>) -> Seq<char> {
    if error.kind == SyntaxErrorKind::WrongName && error.at < tokens.len()
        && tokens[error.at as int] is Ident {
        "Expected `versions`, found `"@ + tokens[error.at as int]->Ident_0
            + "`. The correct syntax is: #[versioned(versions = [Version1, Version2, ...])]"@
    } else {
        "Malformed `versions` list: "@ + problem_text(Problem::Syntax(error))
            + ". The correct syntax is: #[versioned(versions = [Version1, Version2, ...])]"@
    }
}

/// Where parsing fails on a wrong name, the message names the word that
/// stands in place of `versions`.
pub proof fn law_wrong_name_is_named(tokens: Seq<TokenView>)
    requires
        parse_outcome(tokens) matches Err(e) && e.kind == SyntaxErrorKind::WrongName,
    ensures
        tokens.len() >= 1,
        tokens[0] matches TokenView::Ident(word) && word != "versions"@ && syntax_text(
            parse_outcome(tokens)->Err_0,
            tokens,
        ) == "Expected `versions`, found `"@ + word
            + "`. The correct syntax is: #[versioned(versions = [Version1, Version2, ...])]"@,
{
}

impl SyntaxError {
    /// The message for the author of the argument list `tokens`, which
    /// this error was found in: the word that stands in place of
    /// `versions` is named, anything else is described.
    pub fn message(&self, tokens: &[Token]) -> (text: String)
        ensures
            text@ == syntax_text(*self, visible(token_views(tokens@))),
    {
        let kept = visible_tokens(tokens);
        let ghost views = token_views(kept@);
        if self.at < kept.len() {
            assert(views[self.at as int] == kept@[self.at as int]@);
            match (self.kind, &kept[self.at]) {
                (SyntaxErrorKind::WrongName, Token::Ident(word)) => {
                    let mut text = String::from_str("Expected `versions`, found `");
                    text.append(word.as_str());
                    text.append(
                        "`. The correct syntax is: #[versioned(versions = [Version1, Version2, ...])]",
                    );
                    return text;
                },
                _ => {},
            }
        }
        let mut text = String::from_str("Malformed `versions` list: ");
        text.append(Problem::Syntax(*self).describe());
        text.append(". The correct syntax is: #[versioned(versions = [Version1, Version2, ...])]");
        text
    }
}

} // verus!
