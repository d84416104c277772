//! The [PDSC Family](https://open-cmsis-pack.github.io/Open-CMSIS-Pack-Spec/main/html/pdsc_family_pg.html)
//! element and what it holds: debug variables, debug sequences and flash
//! information, and how their content is read.
use vstd::prelude::*;
use vstd::string::StringExecFns;

use crate::debug_access::{
    parse_expression, parse_statement, DebugAccessParseError, DebugErrorModel, Expression, ExpressionModel,
    Statement, StatementModel,
};
use crate::number::{all_digits, decimal, digit_of, lemma_decimal_reads_back, lemma_digit_appended, parse_unsigned, parse_unsigned_chars, push_decimal};
use crate::text::{
    debug_quoted, has_prefix_at, push_char, quoted, split_on, split_text, starts_with,
    starts_with_text, str_eq, str_to_chars, trim, trim_bounds, trim_start, trim_start_bound,
    chars_to_string, lowercase, to_lowercase_text, is_ws, lemma_find_from, split_from, trim_end,
};
use crate::xml::{
    attribute_bool, attribute_unsigned, attribute_value, parse_bool, parse_bool_text,
    read_bool_attribute, read_unsigned_attribute, trim_text, XmlAttribute, XmlErrorModel, XmlNode,
    XmlValueError,
};
use crate::{Error, ErrorModel};

verus! {

/// Parse error for family XML elements.
#[derive(Debug, PartialEq, Eq, Clone)]
pub enum FamilyParseError {
    /// A required XML attribute was absent.
    MissingAttribute(String),
    /// An unrecognised element type was encountered.
    UnknownElementType(String),
    /// A debugvar declaration could not be parsed.
    MalformedDebugvar(String),
    /// Hit an unimplemented content-parse branch.
    UnimplementedContent,
}

/// The value of a [`FamilyParseError`].
pub enum FamilyErrorModel {
    MissingAttribute(Seq<char>),
    UnknownElementType(Seq<char>),
    MalformedDebugvar(Seq<char>),
    UnimplementedContent,
}

impl View for FamilyParseError {
    type V = FamilyErrorModel;

    open spec fn view(&self) -> FamilyErrorModel {
        match self {
            FamilyParseError::MissingAttribute(s) => FamilyErrorModel::MissingAttribute(s@),
            FamilyParseError::UnknownElementType(s) => FamilyErrorModel::UnknownElementType(s@),
            FamilyParseError::MalformedDebugvar(s) => FamilyErrorModel::MalformedDebugvar(s@),
            FamilyParseError::UnimplementedContent => FamilyErrorModel::UnimplementedContent,
        }
    }
}

impl Default for FamilyParseError {
    fn default() -> (r: Self)
        ensures
            r@ == FamilyErrorModel::UnimplementedContent,
    {
        FamilyParseError::UnimplementedContent
    }
}

/// How a [`FamilyParseError`] reads as text.
pub open spec fn family_error_text(e: FamilyErrorModel) -> Seq<char> {
    match e {
        FamilyErrorModel::MissingAttribute(s) => "missing attribute: "@ + s,
        FamilyErrorModel::UnknownElementType(s) => "unknown element type: "@ + s,
        FamilyErrorModel::MalformedDebugvar(s) => "malformed debugvar: "@ + s,
        FamilyErrorModel::UnimplementedContent => "unimplemented content-parse branch"@,
    }
}

impl FamilyParseError {
    /// The error as text, e.g. `missing attribute: name`.
    pub fn to_string(&self) -> (r: String)
        ensures
            r@ == family_error_text(self@),
    {
        match self {
            FamilyParseError::MissingAttribute(s) => {
                let mut out = "missing attribute: ".to_owned();
                out.append(s.as_str());
                out
            },
            FamilyParseError::UnknownElementType(s) => {
                let mut out = "unknown element type: ".to_owned();
                out.append(s.as_str());
                out
            },
            FamilyParseError::MalformedDebugvar(s) => {
                let mut out = "malformed debugvar: ".to_owned();
                out.append(s.as_str());
                out
            },
            FamilyParseError::UnimplementedContent => "unimplemented content-parse branch".to_owned(),
        }
    }
}

// ---------------------------------------------------------------------------
// Debug variables.

/// Represents [PDSC Debugvars](https://open-cmsis-pack.github.io/Open-CMSIS-Pack-Spec/main/html/pdsc_family_pg.html#element_debugvars)
#[derive(Debug, PartialEq, Eq, Clone, Default)]
pub struct Debugvars {
    /// The relative path to the configuration file containing debugvars
    pub configfile: Option<String>,
    /// Debugvars version
    pub version: Option<String>,
    /// Debugvars variable declarations
    pub content: String,
    /// Parsed debugvars, initially `None`, set by [`Debugvars::parse_debugvars`]:
    /// each declared name once, with its value.
    pub parsed_debugvars: Option<Vec<(String, u64)>>,
}

/// The largest `u64`.
pub open spec fn u64_max() -> nat {
    0xFFFF_FFFF_FFFF_FFFF
}

/// What a debug variable's value reads as: hexadecimal after `0x`, or else
/// decimal.
pub open spec fn debugvar_value(s: Seq<char>) -> Option<u64> {
    let hex = if starts_with(s, "0x"@) {
        parse_unsigned(s.subrange("0x"@.len() as int, s.len() as int), 16, u64_max())
    } else {
        None
    };
    match hex {
        Some(n) => Some(n as u64),
        None => match parse_unsigned(s, 10, u64_max()) {
            Some(n) => Some(n as u64),
            None => None,
        },
    }
}

/// `s` without one trailing `;`, trimmed again when one was there.
pub open spec fn without_semicolon(s: Seq<char>) -> Seq<char> {
    if s.len() > 0 && s.last() == ';' {
        trim(s.drop_last())
    } else {
        s
    }
}

/// What one declaration reads as: `__var name = value`, trimmed, with one
/// `;` after the value allowed; when it starts with `//` once trimmed, the
/// declaration is its second line instead.
pub open spec fn debugvar_declaration(line: Seq<char>) -> Result<(Seq<char>, u64), FamilyErrorModel> {
    let decl = if starts_with(trim_start(line), "//"@) {
        let parts = split_on(line, '\n');
        if parts.len() > 1 {
            Ok(trim(parts[1]))
        } else {
            Err(FamilyErrorModel::MalformedDebugvar("Unable to get comment body"@))
        }
    } else {
        Ok(trim(line))
    };
    match decl {
        Err(e) => Err(e),
        Ok(d) => if d.len() == 0 {
            Err(FamilyErrorModel::MalformedDebugvar("empty declaration"@))
        } else if !starts_with(d, "__var"@) {
            Err(FamilyErrorModel::MalformedDebugvar("missing '__var' prefix: "@ + quoted(d)))
        } else {
            let parts = split_on(d.subrange("__var"@.len() as int, d.len() as int), '=');
            if parts.len() != 2 {
                Err(
                    FamilyErrorModel::MalformedDebugvar(
                        "expected exactly one '=' separator, got "@ + decimal(parts.len())
                            + " fields"@,
                    ),
                )
            } else {
                let name = trim(parts[0]);
                let value = without_semicolon(trim(parts[1]));
                match debugvar_value(value) {
                    Some(v) => Ok((name, v)),
                    None => Err(
                        FamilyErrorModel::MalformedDebugvar(
                            "could not parse value as u64: "@ + quoted(value),
                        ),
                    ),
                }
            }
        },
    }
}

/// The declarations text with its comment lines dropped: each line that does
/// not start with `//` once trimmed, followed by a newline.
pub open spec fn uncommented(lines: Seq<Seq<char>>) -> Seq<char>
    decreases lines.len(),
{
    if lines.len() == 0 {
        Seq::empty()
    } else {
        uncommented(lines.drop_last()) + (if starts_with(trim(lines.last()), "//"@) {
            Seq::empty()
        } else {
            lines.last().push('\n')
        })
    }
}

/// The declarations of a debugvars content: the uncommented text cut at
/// every `;`.
pub open spec fn debugvar_segments(content: Seq<char>) -> Seq<Seq<char>> {
    split_on(uncommented(split_on(content, '\n')), ';')
}

/// The variables that `segments` declare: each declaration that reads, a
/// later one overriding an earlier one of the same name.
pub open spec fn debugvar_map(segments: Seq<Seq<char>>) -> Map<Seq<char>, u64>
    decreases segments.len(),
{
    if segments.len() == 0 {
        Map::empty()
    } else {
        let m = debugvar_map(segments.drop_last());
        match debugvar_declaration(segments.last()) {
            Ok((n, v)) => m.insert(n, v),
            Err(_) => m,
        }
    }
}

/// The variables that a debugvars content declares.
pub open spec fn debugvars_of(content: Seq<char>) -> Map<Seq<char>, u64> {
    debugvar_map(debugvar_segments(content))
}

/// Whether the pairs `ps` hold exactly the entries of `m`, each name once.
pub open spec fn pairs_represent(ps: Seq<(String, u64)>, m: Map<Seq<char>, u64>) -> bool {
    &&& forall|i: int, j: int| 0 <= i < j < ps.len() ==> (#[trigger] ps[i]).0@ != (#[trigger] ps[j]).0@
    &&& forall|i: int| 0 <= i < ps.len() ==> m.contains_key((#[trigger] ps[i]).0@) && m[ps[i].0@] == ps[i].1
    &&& forall|k: Seq<char>| m.contains_key(k) ==> exists|i: int| 0 <= i < ps.len() && (#[trigger] ps[i]).0@ == k
}

/// `s` without one trailing `;`, as [`without_semicolon`] says.
fn strip_semicolon(s: String) -> (r: String)
    ensures
        r@ == without_semicolon(s@),
{
    let v = str_to_chars(s.as_str());
    if v.len() > 0 && v[v.len() - 1] == ';' {
        let (a, b) = trim_bounds(&v, 0, v.len() - 1);
        assert(v@.subrange(0, v@.len() - 1) =~= s@.drop_last());
        chars_to_string(&v, a, b)
    } else {
        s
    }
}

/// Sets `name` to `value` among the pairs `r`.
fn insert_pair(r: &mut Vec<(String, u64)>, name: String, value: u64, m: Ghost<Map<Seq<char>, u64>>)
    requires
        pairs_represent(old(r)@, m@),
    ensures
        pairs_represent(final(r)@, m@.insert(name@, value)),
{
    let ghost m2 = m@.insert(name@, value);
    let mut j: usize = 0;
    while j < r.len()
        invariant
            j <= r@.len(),
            pairs_represent(r@, m@),
            m2 == m@.insert(name@, value),
            forall|i: int| 0 <= i < j ==> (#[trigger] r@[i]).0@ != name@,
        decreases r@.len() - j,
    {
        if str_eq(r[j].0.as_str(), name.as_str()) {
            let ghost before = r@;
            r.set(j, (name, value));
            proof {
                assert forall|k: Seq<char>| m2.contains_key(k) implies exists|i: int|
                    0 <= i < r@.len() && (#[trigger] r@[i]).0@ == k by {
                    if k != before[j as int].0@ {
                        assert(m@.contains_key(k));
                        let i = choose|i: int| 0 <= i < before.len() && (#[trigger] before[i]).0@ == k;
                        assert(r@[i].0@ == k);
                    } else {
                        assert(r@[j as int].0@ == k);
                    }
                }
            }
            return;
        }
        j = j + 1;
    }
    let ghost before = r@;
    r.push((name, value));
    proof {
        assert forall|k: Seq<char>| m2.contains_key(k) implies exists|i: int|
            0 <= i < r@.len() && (#[trigger] r@[i]).0@ == k by {
            if k != name@ {
                assert(m@.contains_key(k));
                let i = choose|i: int| 0 <= i < before.len() && (#[trigger] before[i]).0@ == k;
                assert(r@[i].0@ == k);
            } else {
                assert(r@[before.len() as int].0@ == k);
            }
        }
    }
}


/// The name that `segment` declares, when it reads as a declaration.
pub open spec fn declared_name(segment: Seq<char>) -> Option<Seq<char>> {
    match debugvar_declaration(segment) {
        Ok((n, _)) => Some(n),
        Err(_) => None,
    }
}

/// A variable declared more than once takes the value of its last
/// declaration.
pub proof fn lemma_last_declaration_wins(
    segments: Seq<Seq<char>>,
    i: int,
    name: Seq<char>,
    value: u64,
)
    requires
        0 <= i < segments.len(),
        debugvar_declaration(segments[i]) == Ok::<(Seq<char>, u64), FamilyErrorModel>((name, value)),
        forall|j: int| i < j < segments.len() ==> declared_name(#[trigger] segments[j]) != Some(name),
    ensures
        debugvar_map(segments).contains_key(name),
        debugvar_map(segments)[name] == value,
    decreases segments.len(),
{
    if i < segments.len() - 1 {
        let prefix = segments.drop_last();
        assert forall|j: int| i < j < prefix.len() implies declared_name(#[trigger] prefix[j]) != Some(
            name,
        ) by {
            assert(prefix[j] == segments[j]);
        }
        lemma_last_declaration_wins(prefix, i, name, value);
        assert(declared_name(segments[segments.len() - 1]) != Some(name));
    }
}

/// A name is declared exactly when some segment declares it.
pub proof fn lemma_declared_names(segments: Seq<Seq<char>>, name: Seq<char>)
    ensures
        debugvar_map(segments).contains_key(name) <==> exists|j: int|
            0 <= j < segments.len() && declared_name(#[trigger] segments[j]) == Some(name),
    decreases segments.len(),
{
    if segments.len() > 0 {
        let prefix = segments.drop_last();
        lemma_declared_names(prefix, name);
        if debugvar_map(segments).contains_key(name) {
            if declared_name(segments.last()) == Some(name) {
                assert(declared_name(segments[segments.len() - 1]) == Some(name));
            } else {
                let j = choose|j: int| 0 <= j < prefix.len() && declared_name(#[trigger] prefix[j]) == Some(name);
                assert(segments[j] == prefix[j]);
            }
        } else {
            assert forall|j: int| 0 <= j < segments.len() implies declared_name(#[trigger] segments[j]) != Some(name) by {
                if j < prefix.len() {
                    assert(segments[j] == prefix[j]);
                }
            }
        }
    }
}

impl Debugvars {
    /// Reads a debug variable's value, as [`debugvar_value`] says.
    pub fn parse_value_string(value: &str) -> (r: Option<u64>)
        ensures
            r == debugvar_value(value@),
    {
        let v = str_to_chars(value);
        let prefix = str_to_chars("0x");
        proof {
            assert(v@.subrange(0, v@.len() as int) =~= value@);
        }
        if has_prefix_at(&v, 0, v.len(), &prefix) {
            proof {
                assert(v@.subrange(prefix@.len() as int, v@.len() as int) =~= value@.subrange(
                    "0x"@.len() as int,
                    value@.len() as int,
                ));
            }
            match parse_unsigned_chars(&v, prefix.len(), v.len(), 16, 0xFFFF_FFFF_FFFF_FFFF) {
                Some(n) => {
                    return Some(n);
                },
                None => {},
            }
        }
        parse_unsigned_chars(&v, 0, v.len(), 10, 0xFFFF_FFFF_FFFF_FFFF)
    }

    /// Parses a single variable declaration entry, as
    /// [`debugvar_declaration`] says: `Ok((name, value))` for a valid
    /// `__var name = value;` declaration.
    pub fn parse_single_debugvar(line: &str) -> (r: Result<(String, u64), FamilyParseError>)
        ensures
            match r {
                Ok((n, v)) => debugvar_declaration(line@) == Ok::<(Seq<char>, u64), FamilyErrorModel>((n@, v)),
                Err(e) => debugvar_declaration(line@) == Err::<(Seq<char>, u64), FamilyErrorModel>(e@),
            },
    {
        let lv = str_to_chars(line);
        proof {
            assert(lv@.subrange(0, lv@.len() as int) =~= line@);
        }
        let ts = trim_start_bound(&lv, 0, lv.len());
        let slashes = str_to_chars("//");
        let declaration: String;
        if has_prefix_at(&lv, ts, lv.len(), &slashes) {
            let parts = split_text(line, '\n');
            if parts.len() > 1 {
                declaration = trim_text(parts[1].as_str());
            } else {
                return Err(FamilyParseError::MalformedDebugvar("Unable to get comment body".to_owned()));
            }
        } else {
            declaration = trim_text(line);
        }
        let dv = str_to_chars(declaration.as_str());
        proof {
            assert(dv@.subrange(0, dv@.len() as int) =~= declaration@);
        }
        if dv.len() == 0 {
            return Err(FamilyParseError::MalformedDebugvar("empty declaration".to_owned()));
        }
        let var_prefix = str_to_chars("__var");
        if !has_prefix_at(&dv, 0, dv.len(), &var_prefix) {
            let mut msg = "missing '__var' prefix: ".to_owned();
            let q = debug_quoted(declaration.as_str());
            msg.append(q.as_str());
            return Err(FamilyParseError::MalformedDebugvar(msg));
        }
        let rest = chars_to_string(&dv, var_prefix.len(), dv.len());
        let parts = split_text(rest.as_str(), '=');
        if parts.len() != 2 {
            let mut msg = "expected exactly one '=' separator, got ".to_owned();
            push_decimal(&mut msg, parts.len());
            msg.append(" fields");
            return Err(FamilyParseError::MalformedDebugvar(msg));
        }
        let name = trim_text(parts[0].as_str());
        let value = strip_semicolon(trim_text(parts[1].as_str()));
        match Self::parse_value_string(value.as_str()) {
            Some(v) => Ok((name, v)),
            None => {
                let mut msg = "could not parse value as u64: ".to_owned();
                let q = debug_quoted(value.as_str());
                msg.append(q.as_str());
                Err(FamilyParseError::MalformedDebugvar(msg))
            },
        }
    }

    /// Reads the declarations of [`Self::content`]: each name it declares
    /// once, with its value, as [`debugvars_of`] says. Declarations that do
    /// not read are skipped.
    pub fn parse_debugvars_content(&self) -> (r: Vec<(String, u64)>)
        ensures
            pairs_represent(r@, debugvars_of(self.content@)),
    {
        let lines = split_text(self.content.as_str(), '\n');
        let ghost lm = split_on(self.content@, '\n');
        let mut kept = String::new();
        let mut k: usize = 0;
        while k < lines.len()
            invariant
                k <= lines@.len(),
                lines@.len() == lm.len(),
                forall|i: int| 0 <= i < lines@.len() ==> (#[trigger] lines@[i])@ == lm[i],
                kept@ == uncommented(lm.take(k as int)),
            decreases lines@.len() - k,
        {
            let t = trim_text(lines[k].as_str());
            let ghost before = kept@;
            if !starts_with_text(t.as_str(), "//") {
                kept.append(lines[k].as_str());
                push_char(&mut kept, '\n');
            }
            proof {
                assert(lm.take(k + 1).drop_last() =~= lm.take(k as int));
                assert(kept@ =~= uncommented(lm.take(k + 1)));
            }
            k = k + 1;
        }
        proof {
            assert(lm.take(lm.len() as int) =~= lm);
        }
        let segments = split_text(kept.as_str(), ';');
        let ghost sm = debugvar_segments(self.content@);
        let mut result: Vec<(String, u64)> = Vec::new();
        let mut i: usize = 0;
        while i < segments.len()
            invariant
                i <= segments@.len(),
                segments@.len() == sm.len(),
                forall|j: int| 0 <= j < segments@.len() ==> (#[trigger] segments@[j])@ == sm[j],
                pairs_represent(result@, debugvar_map(sm.take(i as int))),
            decreases segments@.len() - i,
        {
            proof {
                assert(sm.take(i + 1).drop_last() =~= sm.take(i as int));
            }
            match Self::parse_single_debugvar(segments[i].as_str()) {
                Ok((name, value)) => {
                    insert_pair(&mut result, name, value, Ghost(debugvar_map(sm.take(i as int))));
                },
                Err(_) => {},
            }
            i = i + 1;
        }
        proof {
            assert(sm.take(sm.len() as int) =~= sm);
        }
        result
    }

    /// Reads the declarations and stores them in [`Self::parsed_debugvars`];
    /// the other fields stay as they are.
    pub fn parse_debugvars(&mut self)
        ensures
            final(self).configfile == old(self).configfile,
            final(self).version == old(self).version,
            final(self).content == old(self).content,
            final(self).parsed_debugvars matches Some(vars) && pairs_represent(
                vars@,
                debugvars_of(old(self).content@),
            ),
    {
        let vars = self.parse_debugvars_content();
        self.parsed_debugvars = Some(vars);
    }
}


// ---------------------------------------------------------------------------
// Sequence blocks and their statements.

/// Represents a [PDSC Block Sequence](https://open-cmsis-pack.github.io/Open-CMSIS-Pack-Spec/main/html/pdsc_family_pg.html#element_seq_block)
#[derive(Debug, PartialEq, Eq, Default)]
pub struct SequenceBlock {
    /// If `Some(true)` the block must be executed atomically, see the description on CMSIS Pack website.
    pub atomic: Option<bool>,
    /// Descriptive text, e.g. for diagnostics
    pub info: Option<String>,
    /// Sequence block content
    pub content: String,
    /// [`Statement`]s resulting from the parsing of [`Self::content`]
    pub statements: Vec<Statement>,
}

/// The value of an optional string.
pub open spec fn opt_view(o: Option<String>) -> Option<Seq<char>> {
    match o {
        Some(s) => Some(s@),
        None => None,
    }
}

/// The values of a sequence of statements.
pub open spec fn statements_model(s: Seq<Statement>) -> Seq<StatementModel> {
    Seq::new(s.len(), |i: int| s[i]@)
}

/// The nonempty ones of `pieces`, trimmed.
pub open spec fn trimmed_nonempty(pieces: Seq<Seq<char>>) -> Seq<Seq<char>>
    decreases pieces.len(),
{
    if pieces.len() == 0 {
        Seq::empty()
    } else {
        let r = trimmed_nonempty(pieces.drop_last());
        let t = trim(pieces.last());
        if t.len() == 0 {
            r
        } else {
            r.push(t)
        }
    }
}

/// The statement texts of `lines`: each line cut at every `;`, the pieces
/// trimmed, the empty ones dropped.
pub open spec fn statement_texts(lines: Seq<Seq<char>>) -> Seq<Seq<char>>
    decreases lines.len(),
{
    if lines.len() == 0 {
        Seq::empty()
    } else {
        statement_texts(lines.drop_last()) + trimmed_nonempty(split_on(lines.last(), ';'))
    }
}

/// The statement texts of a block's content.
pub open spec fn block_statement_texts(content: Seq<char>) -> Seq<Seq<char>> {
    statement_texts(split_on(content, '\n'))
}

/// What one statement text of a block parses to: a comment keeps its text
/// as written, `//` included; any other text reads as [`parse_statement`]
/// says.
pub open spec fn block_statement(t: Seq<char>) -> Result<StatementModel, DebugErrorModel> {
    if starts_with(t, "//"@) {
        Ok(StatementModel::Comment(t))
    } else {
        parse_statement(t)
    }
}

/// The statements that `texts` parse to, in order; the first error wins.
pub open spec fn parse_statement_list(texts: Seq<Seq<char>>) -> Result<
    Seq<StatementModel>,
    DebugErrorModel,
>
    decreases texts.len(),
{
    if texts.len() == 0 {
        Ok(Seq::empty())
    } else {
        match block_statement(texts[0]) {
            Err(e) => Err(e),
            Ok(m) => match parse_statement_list(texts.drop_first()) {
                Ok(ms) => Ok(seq![m] + ms),
                Err(e) => Err(e),
            },
        }
    }
}

/// The statements of a block's content.
pub open spec fn block_statements(content: Seq<char>) -> Result<
    Seq<StatementModel>,
    DebugErrorModel,
> {
    parse_statement_list(block_statement_texts(content))
}

/// Whether `r` is what reading `content` as statements gives.
pub open spec fn statements_result(content: Seq<char>, r: Result<Vec<Statement>, Error>) -> bool {
    match r {
        Ok(v) => block_statements(content) == Ok::<Seq<StatementModel>, DebugErrorModel>(
            statements_model(v@),
        ),
        Err(e) => block_statements(content) matches Err(d) && e@ == ErrorModel::Debug(d),
    }
}

impl SequenceBlock {
    /// Parses [`Self::content`] into a list of [`Statement`]s: each line is
    /// cut at every `;`, and each nonempty piece, trimmed, is a statement; a
    /// piece that starts with `//` is a comment that keeps its text as written.
    pub fn parse_statements_content(&self) -> (r: Result<Vec<Statement>, Error>)
        ensures
            statements_result(self.content@, r),
    {
        let lines = split_text(self.content.as_str(), '\n');
        let ghost lm = split_on(self.content@, '\n');
        let mut texts: Vec<String> = Vec::new();
        let mut k: usize = 0;
        while k < lines.len()
            invariant
                k <= lines@.len(),
                lines@.len() == lm.len(),
                forall|i: int| 0 <= i < lines@.len() ==> (#[trigger] lines@[i])@ == lm[i],
                texts@.map_values(|t: String| t@) == statement_texts(lm.take(k as int)),
            decreases lines@.len() - k,
        {
            let parts = split_text(lines[k].as_str(), ';');
            let ghost pm = split_on(lm[k as int], ';');
            let ghost base = statement_texts(lm.take(k as int));
            let mut j: usize = 0;
            while j < parts.len()
                invariant
                    j <= parts@.len(),
                    parts@.len() == pm.len(),
                    forall|i: int| 0 <= i < parts@.len() ==> (#[trigger] parts@[i])@ == pm[i],
                    texts@.map_values(|t: String| t@) == base + trimmed_nonempty(pm.take(j as int)),
                decreases parts@.len() - j,
            {
                let t = trim_text(parts[j].as_str());
                let ghost before = texts@.map_values(|t: String| t@);
                assert(pm.take(j + 1).drop_last() =~= pm.take(j as int));
                if !t.as_str().is_empty() {
                    texts.push(t);
                    proof {
                        assert(texts@.map_values(|t: String| t@) =~= before.push(t@));
                        assert(base + trimmed_nonempty(pm.take(j as int)).push(t@) =~= (base
                            + trimmed_nonempty(pm.take(j as int))).push(t@));
                    }
                }
                j = j + 1;
            }
            proof {
                assert(pm.take(pm.len() as int) =~= pm);
                assert(lm.take(k + 1).drop_last() =~= lm.take(k as int));
            }
            k = k + 1;
        }
        proof {
            assert(lm.take(lm.len() as int) =~= lm);
        }
        let ghost ts = block_statement_texts(self.content@);
        let mut result: Vec<Statement> = Vec::new();
        let mut i: usize = 0;
        proof {
            assert(ts.skip(0) =~= ts);
            match parse_statement_list(ts) {
                Ok(x) => {
                    assert(statements_model(result@) + x =~= x);
                },
                Err(_) => {},
            }
        }
        while i < texts.len()
            invariant
                i <= texts@.len(),
                texts@.map_values(|t: String| t@) == ts,
                ts == block_statement_texts(self.content@),
                parse_statement_list(ts) == (match parse_statement_list(ts.skip(i as int)) {
                    Ok(rest) => Ok(statements_model(result@) + rest),
                    Err(e) => Err(e),
                }),
            decreases texts@.len() - i,
        {
            let ghost tk = ts.skip(i as int);
            assert(tk[0] == texts@[i as int]@);
            assert(tk.drop_first() =~= ts.skip(i + 1));
            let st = if starts_with_text(texts[i].as_str(), "//") {
                Statement::Comment(texts[i].clone())
            } else {
                match Statement::parse(texts[i].as_str()) {
                    Ok(st) => st,
                    Err(e) => {
                        return Err(Error::Debug(e));
                    },
                }
            };
            let ghost before = statements_model(result@);
            result.push(st);
            proof {
                assert(statements_model(result@) =~= before.push(st@));
                match parse_statement_list(ts.skip(i + 1)) {
                    Ok(ms) => {
                        assert(before + (seq![st@] + ms) =~= before.push(st@) + ms);
                    },
                    Err(_) => {},
                }
            }
            i = i + 1;
        }
        proof {
            assert(ts.skip(i as int).len() == 0);
            assert(statements_model(result@) + Seq::<StatementModel>::empty() =~= statements_model(
                result@,
            ));
        }
        Ok(result)
    }

    /// Parses the block content and stores the result in
    /// [`Self::statements`]; on an error the block stays as it was.
    pub fn parse_statements(&mut self) -> (r: Result<(), Error>)
        ensures
            final(self).atomic == old(self).atomic,
            final(self).info == old(self).info,
            final(self).content == old(self).content,
            match r {
                Ok(()) => block_statements(old(self).content@) == Ok::<
                    Seq<StatementModel>,
                    DebugErrorModel,
                >(statements_model(final(self).statements@)),
                Err(e) => block_statements(old(self).content@) matches Err(d) && e@
                    == ErrorModel::Debug(d) && final(self).statements == old(self).statements,
            },
    {
        match self.parse_statements_content() {
            Ok(v) => {
                self.statements = v;
                Ok(())
            },
            Err(e) => Err(e),
        }
    }
}


// ---------------------------------------------------------------------------
// Sequences.

/// Represents a [PDSC Control Sequence](https://open-cmsis-pack.github.io/Open-CMSIS-Pack-Spec/main/html/pdsc_family_pg.html#element_seq_control)
#[derive(Debug, PartialEq, Eq, Default)]
pub struct SequenceControl {
    /// If conditional
    pub conditional_if: Option<String>,
    /// While conditional
    pub conditional_while: Option<String>,
    /// Timeout in microseconds, a value of 0 is the same as None
    pub timeout: Option<u64>,
    /// Descriptive text, e.g. for diagnostics
    pub info: Option<String>,
    /// The elements contained by the control block
    pub elements: Vec<SequenceElement>,
    /// The conditional parsed as an [`Expression`]; `Some` once the control
    /// element has been read.
    pub conditional: Option<Expression>,
}

/// The valid sequence child elements as defined in the "Child Elements" section of the [PDSC sequence element](https://open-cmsis-pack.github.io/Open-CMSIS-Pack-Spec/main/html/pdsc_family_pg.html#element_sequence)
#[derive(Debug, PartialEq, Eq)]
pub enum SequenceElement {
    /// A PDSC Control sequence, see [`SequenceControl`]
    Control(SequenceControl),
    /// A PDSC Block sequence, see [`SequenceBlock`]
    Block(SequenceBlock),
}

/// Represents [PDSC Sequence](https://open-cmsis-pack.github.io/Open-CMSIS-Pack-Spec/main/html/pdsc_family_pg.html#element_sequence)
#[derive(Debug, PartialEq, Eq, Default)]
pub struct Sequence {
    /// The sequence name
    pub name: String,
    /// Processor name, if set only use the debug sequence for this processor
    pub processor_name: Option<String>,
    /// If set disable the [Predefined Debug Access Sequence](https://open-cmsis-pack.github.io/Open-CMSIS-Pack-Spec/main/html/debug_description.html#default_sequences) of the same name
    pub disable: Option<bool>,
    /// Descriptive text about the sequence
    pub info: Option<String>,
    /// The blocks and control elements of the sequence, in document order.
    pub elements: Vec<SequenceElement>,
}

/// The value of a [`SequenceBlock`].
pub struct BlockModel {
    pub atomic: Option<bool>,
    pub info: Option<Seq<char>>,
    pub content: Seq<char>,
    pub statements: Seq<StatementModel>,
}

/// The value of a [`SequenceControl`].
pub struct ControlModel {
    pub conditional_if: Option<Seq<char>>,
    pub conditional_while: Option<Seq<char>>,
    pub timeout: Option<u64>,
    pub info: Option<Seq<char>>,
    pub elements: Seq<ElementModel>,
    pub conditional: Option<ExpressionModel>,
}

/// The value of a [`SequenceElement`].
pub enum ElementModel {
    Control(ControlModel),
    Block(BlockModel),
}

/// The value of a [`Sequence`].
pub struct SequenceModel {
    pub name: Seq<char>,
    pub processor_name: Option<Seq<char>>,
    pub disable: Option<bool>,
    pub info: Option<Seq<char>>,
    pub elements: Seq<ElementModel>,
}

/// The value of an optional expression.
pub open spec fn opt_expression(o: Option<Expression>) -> Option<ExpressionModel> {
    match o {
        Some(e) => Some(e@),
        None => None,
    }
}

impl View for SequenceBlock {
    type V = BlockModel;

    open spec fn view(&self) -> BlockModel {
        BlockModel {
            atomic: self.atomic,
            info: opt_view(self.info),
            content: self.content@,
            statements: statements_model(self.statements@),
        }
    }
}

/// The value of a sequence element.
pub open spec fn element_model(e: SequenceElement) -> ElementModel
    decreases e,
{
    match e {
        SequenceElement::Control(c) => ElementModel::Control(control_model(c)),
        SequenceElement::Block(b) => ElementModel::Block(b@),
    }
}

/// The value of a control element.
pub open spec fn control_model(c: SequenceControl) -> ControlModel
    decreases c,
{
    ControlModel {
        conditional_if: opt_view(c.conditional_if),
        conditional_while: opt_view(c.conditional_while),
        timeout: c.timeout,
        info: opt_view(c.info),
        elements: Seq::new(
            c.elements.len() as nat,
            |i: int|
                if 0 <= i < c.elements.len() {
                    element_model(c.elements@[i])
                } else {
                    ElementModel::Block(
                        BlockModel {
                            atomic: None,
                            info: None,
                            content: Seq::empty(),
                            statements: Seq::empty(),
                        },
                    )
                },
        ),
        conditional: opt_expression(c.conditional),
    }
}

/// The values of a sequence of elements.
pub open spec fn elements_model(es: Seq<SequenceElement>) -> Seq<ElementModel> {
    Seq::new(es.len(), |i: int| element_model(es[i]))
}

impl View for SequenceElement {
    type V = ElementModel;

    open spec fn view(&self) -> ElementModel {
        element_model(*self)
    }
}

impl View for SequenceControl {
    type V = ControlModel;

    open spec fn view(&self) -> ControlModel {
        control_model(*self)
    }
}

impl View for Sequence {
    type V = SequenceModel;

    open spec fn view(&self) -> SequenceModel {
        SequenceModel {
            name: self.name@,
            processor_name: opt_view(self.processor_name),
            disable: self.disable,
            info: opt_view(self.info),
            elements: elements_model(self.elements@),
        }
    }
}

impl Default for SequenceElement {
    fn default() -> (r: Self)
        ensures
            r@ == ElementModel::Block(
                BlockModel {
                    atomic: None,
                    info: None,
                    content: Seq::empty(),
                    statements: Seq::empty(),
                },
            ),
    {
        let b = SequenceBlock { atomic: None, info: None, content: String::new(), statements: Vec::new() };
        assert(statements_model(b.statements@) =~= Seq::<StatementModel>::empty());
        SequenceElement::Block(b)
    }
}

impl From<SequenceControl> for SequenceElement {
    fn from(value: SequenceControl) -> (r: Self)
        ensures
            r == SequenceElement::Control(value),
    {
        SequenceElement::Control(value)
    }
}

impl vstd::std_specs::convert::FromSpecImpl<SequenceControl> for SequenceElement {
    open spec fn obeys_from_spec() -> bool {
        true
    }

    open spec fn from_spec(v: SequenceControl) -> SequenceElement {
        SequenceElement::Control(v)
    }
}

impl From<SequenceBlock> for SequenceElement {
    fn from(value: SequenceBlock) -> (r: Self)
        ensures
            r == SequenceElement::Block(value),
    {
        SequenceElement::Block(value)
    }
}

impl vstd::std_specs::convert::FromSpecImpl<SequenceBlock> for SequenceElement {
    open spec fn obeys_from_spec() -> bool {
        true
    }

    open spec fn from_spec(v: SequenceBlock) -> SequenceElement {
        SequenceElement::Block(v)
    }
}

/// The text of a node, or nothing.
pub open spec fn node_text(node: XmlNode) -> Seq<char> {
    match node.text {
        Some(t) => t@,
        None => Seq::empty(),
    }
}

/// The value of the attribute `name` of `node`.
pub open spec fn attr(node: XmlNode, name: Seq<char>) -> Option<Seq<char>> {
    attribute_value(node.attributes@, name)
}

/// An optional attribute holding a `bool`: absent, or a value that reads.
pub open spec fn optional_bool(node: XmlNode, name: Seq<char>) -> Result<Option<bool>, ErrorModel> {
    match attr(node, name) {
        None => Ok(None),
        Some(v) => match attribute_bool(v) {
            Some(b) => Ok(Some(b)),
            None => Err(ErrorModel::Xml(XmlErrorModel::InvalidBool(name))),
        },
    }
}

/// An optional attribute holding an unsigned integer of at most `max`.
pub open spec fn optional_unsigned(node: XmlNode, name: Seq<char>, max: nat) -> Result<
    Option<nat>,
    ErrorModel,
> {
    match attr(node, name) {
        None => Ok(None),
        Some(v) => match attribute_unsigned(v, max) {
            Some(n) => Ok(Some(n)),
            None => Err(ErrorModel::Xml(XmlErrorModel::InvalidInteger(name))),
        },
    }
}

/// What a `<block>` element reads as: its `atomic` and `info` attributes,
/// its text, and the statements of its text.
pub open spec fn block_from_node(node: XmlNode) -> Result<BlockModel, ErrorModel> {
    match optional_bool(node, "atomic"@) {
        Err(e) => Err(e),
        Ok(atomic) => match block_statements(node_text(node)) {
            Err(e) => Err(ErrorModel::Debug(e)),
            Ok(statements) => Ok(
                BlockModel {
                    atomic,
                    info: attr(node, "info"@),
                    content: node_text(node),
                    statements,
                },
            ),
        },
    }
}

/// The message of the error for a control element without a condition.
pub open spec fn missing_condition_message() -> Seq<char> {
    "conditional 'if' or 'while' attribute"@
}

/// What a sequence element reads as: a `<block>` or a `<control>` element
/// (the tag compared in lower case).
pub open spec fn element_from_node(node: XmlNode) -> Result<ElementModel, ErrorModel>
    decreases node, node.children@.len() + 2,
{
    if !node.is_element {
        Err(ErrorModel::Family(FamilyErrorModel::UnimplementedContent))
    } else {
        let tag = lowercase(node.tag_name@);
        if tag == "block"@ {
            match block_from_node(node) {
                Ok(b) => Ok(ElementModel::Block(b)),
                Err(e) => Err(e),
            }
        } else if tag == "control"@ {
            match control_from_node(node) {
                Ok(c) => Ok(ElementModel::Control(c)),
                Err(e) => Err(e),
            }
        } else {
            Err(ErrorModel::Family(FamilyErrorModel::UnknownElementType(tag)))
        }
    }
}

/// What a `<control>` element reads as: its attributes, its child elements,
/// and its `if` condition (or else its `while` condition) parsed as an
/// expression.
pub open spec fn control_from_node(node: XmlNode) -> Result<ControlModel, ErrorModel>
    decreases node, node.children@.len() + 1,
{
    match optional_unsigned(node, "timeout"@, u64_max()) {
        Err(e) => Err(e),
        Ok(timeout) => match elements_from_children(node, 0) {
            Err(e) => Err(e),
            Ok(elements) => {
                let cif = attr(node, "if"@);
                let cwhile = attr(node, "while"@);
                let condition = match cif {
                    Some(c) => Some(c),
                    None => cwhile,
                };
                match condition {
                    None => Err(
                        ErrorModel::Family(
                            FamilyErrorModel::MissingAttribute(missing_condition_message()),
                        ),
                    ),
                    Some(c) => match parse_expression(c) {
                        Err(e) => Err(ErrorModel::Debug(e)),
                        Ok(m) => Ok(
                            ControlModel {
                                conditional_if: cif,
                                conditional_while: cwhile,
                                timeout: match timeout {
                                    Some(n) => Some(n as u64),
                                    None => None,
                                },
                                info: attr(node, "info"@),
                                elements,
                                conditional: Some(m),
                            },
                        ),
                    },
                }
            },
        },
    }
}

/// What the element children of `node` from the `i`-th child on read as, in
/// order; the first error wins.
pub open spec fn elements_from_children(node: XmlNode, i: int) -> Result<
    Seq<ElementModel>,
    ErrorModel,
>
    decreases node, node.children@.len() - i,
{
    if i < 0 || i >= node.children@.len() {
        Ok(Seq::empty())
    } else {
        let c = node.children@[i];
        if !c.is_element {
            elements_from_children(node, i + 1)
        } else {
            match element_from_node(c) {
                Err(e) => Err(e),
                Ok(m) => match elements_from_children(node, i + 1) {
                    Ok(ms) => Ok(seq![m] + ms),
                    Err(e) => Err(e),
                },
            }
        }
    }
}

/// What a `<sequence>` element reads as: its `name` (required), `Pname`,
/// `disable` and `info` attributes, and its child elements. A `disable`
/// value other than `true` or `false` reads as absent.
pub open spec fn sequence_from_node(node: XmlNode) -> Result<SequenceModel, ErrorModel> {
    if node.tag_name@ != "sequence"@ {
        Err(ErrorModel::Family(FamilyErrorModel::UnknownElementType(node.tag_name@)))
    } else {
        match attr(node, "name"@) {
            None => Err(ErrorModel::Family(FamilyErrorModel::MissingAttribute("name"@))),
            Some(name) => match elements_from_children(node, 0) {
                Err(e) => Err(e),
                Ok(elements) => Ok(
                    SequenceModel {
                        name,
                        processor_name: attr(node, "Pname"@),
                        disable: match attr(node, "disable"@) {
                            Some(v) => parse_bool(v),
                            None => None,
                        },
                        info: attr(node, "info"@),
                        elements,
                    },
                ),
            },
        }
    }
}

/// The value of an optional string attribute, copied.
fn copy_attribute(node: &XmlNode, name: &str) -> (r: Option<String>)
    ensures
        opt_view(r) == attr(*node, name@),
{
    match node.attribute(name) {
        Some(v) => Some(v.clone()),
        None => None,
    }
}

/// The text of a node, copied.
fn copy_text(node: &XmlNode) -> (r: String)
    ensures
        r@ == node_text(*node),
{
    match &node.text {
        Some(t) => t.clone(),
        None => String::new(),
    }
}

impl SequenceBlock {
    /// Reads a `<block>` element, as [`block_from_node`] says.
    pub fn from_node(node: &XmlNode) -> (r: Result<SequenceBlock, Error>)
        ensures
            match r {
                Ok(b) => block_from_node(*node) == Ok::<BlockModel, ErrorModel>(b@),
                Err(e) => block_from_node(*node) == Err::<BlockModel, ErrorModel>(e@),
            },
    {
        let atomic = match node.attribute("atomic") {
            None => None,
            Some(v) => match read_bool_attribute(v.as_str()) {
                Some(b) => Some(b),
                None => {
                    return Err(Error::Xml(XmlValueError::InvalidBool("atomic".to_owned())));
                },
            },
        };
        let mut block = SequenceBlock {
            atomic,
            info: copy_attribute(node, "info"),
            content: copy_text(node),
            statements: Vec::new(),
        };
        match block.parse_statements() {
            Ok(()) => Ok(block),
            Err(e) => Err(e),
        }
    }
}

impl SequenceElement {
    /// Reads a sequence element, as [`element_from_node`] says.
    pub fn from_node(node: &XmlNode) -> (r: Result<SequenceElement, Error>)
        ensures
            match r {
                Ok(e) => element_from_node(*node) == Ok::<ElementModel, ErrorModel>(e@),
                Err(e) => element_from_node(*node) == Err::<ElementModel, ErrorModel>(e@),
            },
        decreases *node, node.children@.len() + 2,
    {
        if !node.is_element {
            return Err(Error::Family(FamilyParseError::UnimplementedContent));
        }
        let tag = to_lowercase_text(node.tag_name.as_str());
        if str_eq(tag.as_str(), "block") {
            match SequenceBlock::from_node(node) {
                Ok(b) => Ok(SequenceElement::Block(b)),
                Err(e) => Err(e),
            }
        } else if str_eq(tag.as_str(), "control") {
            match SequenceControl::from_node(node) {
                Ok(c) => Ok(SequenceElement::Control(c)),
                Err(e) => Err(e),
            }
        } else {
            Err(Error::Family(FamilyParseError::UnknownElementType(tag)))
        }
    }
}

/// Reads the element children of `node`, as [`elements_from_children`]
/// says from the first child on.
fn child_elements(node: &XmlNode) -> (r: Result<Vec<SequenceElement>, Error>)
    ensures
        match r {
            Ok(v) => elements_from_children(*node, 0) == Ok::<Seq<ElementModel>, ErrorModel>(
                elements_model(v@),
            ),
            Err(e) => elements_from_children(*node, 0) == Err::<Seq<ElementModel>, ErrorModel>(e@),
        },
    decreases *node, node.children@.len(),
{
    let mut result: Vec<SequenceElement> = Vec::new();
    let mut i: usize = 0;
    proof {
        match elements_from_children(*node, 0) {
            Ok(x) => {
                assert(elements_model(result@) + x =~= x);
            },
            Err(_) => {},
        }
    }
    while i < node.children.len()
        invariant
            i <= node.children@.len(),
            elements_from_children(*node, 0) == (match elements_from_children(*node, i as int) {
                Ok(rest) => Ok(elements_model(result@) + rest),
                Err(e) => Err(e),
            }),
        decreases node.children@.len() - i,
    {
        let c = &node.children[i];
        if c.is_element {
            proof {
                let n = *node;
                assert(decreases_to!(n => n.children));
                assert(decreases_to!(n.children => n.children@));
                assert(decreases_to!(n.children@ => n.children@[i as int]));
                assert(decreases_to!(n => n.children@[i as int]));
            }
            let e = match SequenceElement::from_node(c) {
                Ok(e) => e,
                Err(err) => {
                    return Err(err);
                },
            };
            let ghost before = elements_model(result@);
            result.push(e);
            proof {
                assert(elements_model(result@) =~= before.push(e@));
                match elements_from_children(*node, i + 1) {
                    Ok(ms) => {
                        assert(before + (seq![e@] + ms) =~= before.push(e@) + ms);
                    },
                    Err(_) => {},
                }
            }
        }
        i = i + 1;
    }
    proof {
        assert(elements_model(result@) + Seq::<ElementModel>::empty() =~= elements_model(result@));
    }
    Ok(result)
}

impl SequenceControl {
    /// Reads a `<control>` element, as [`control_from_node`] says.
    pub fn from_node(node: &XmlNode) -> (r: Result<SequenceControl, Error>)
        ensures
            match r {
                Ok(c) => control_from_node(*node) == Ok::<ControlModel, ErrorModel>(c@),
                Err(e) => control_from_node(*node) == Err::<ControlModel, ErrorModel>(e@),
            },
        decreases *node, node.children@.len() + 1,
    {
        let timeout = match node.attribute("timeout") {
            None => None,
            Some(v) => match read_unsigned_attribute(v.as_str(), 0xFFFF_FFFF_FFFF_FFFF) {
                Some(n) => Some(n),
                None => {
                    return Err(Error::Xml(XmlValueError::InvalidInteger("timeout".to_owned())));
                },
            },
        };
        let elements = match child_elements(node) {
            Ok(v) => v,
            Err(e) => {
                return Err(e);
            },
        };
        let conditional_if = copy_attribute(node, "if");
        let conditional_while = copy_attribute(node, "while");
        let conditional = {
            let text = match &conditional_if {
                Some(c) => c,
                None => match &conditional_while {
                    Some(c) => c,
                    None => {
                        return Err(
                            Error::Family(
                                FamilyParseError::MissingAttribute(
                                    "conditional 'if' or 'while' attribute".to_owned(),
                                ),
                            ),
                        );
                    },
                },
            };
            match Expression::parse(text.as_str()) {
                Ok(e) => e,
                Err(e) => {
                    return Err(Error::Debug(e));
                },
            }
        };
        let c = SequenceControl {
            conditional_if,
            conditional_while,
            timeout,
            info: copy_attribute(node, "info"),
            elements,
            conditional: Some(conditional),
        };
        proof {
            assert(control_model(c).elements =~= elements_model(c.elements@));
        }
        Ok(c)
    }
}

impl Sequence {
    /// Reads a `<sequence>` element, as [`sequence_from_node`] says.
    pub fn from_node(node: &XmlNode) -> (r: Result<Sequence, Error>)
        ensures
            match r {
                Ok(s) => sequence_from_node(*node) == Ok::<SequenceModel, ErrorModel>(s@),
                Err(e) => sequence_from_node(*node) == Err::<SequenceModel, ErrorModel>(e@),
            },
    {
        if !str_eq(node.tag_name.as_str(), "sequence") {
            return Err(Error::Family(FamilyParseError::UnknownElementType(node.tag_name.clone())));
        }
        let name = match node.attribute("name") {
            Some(v) => v.clone(),
            None => {
                return Err(Error::Family(FamilyParseError::MissingAttribute("name".to_owned())));
            },
        };
        let disable = match node.attribute("disable") {
            Some(v) => parse_bool_text(v.as_str()),
            None => None,
        };
        let elements = match child_elements(node) {
            Ok(v) => v,
            Err(e) => {
                return Err(e);
            },
        };
        Ok(
            Sequence {
                name,
                processor_name: copy_attribute(node, "Pname"),
                disable,
                info: copy_attribute(node, "info"),
                elements,
            },
        )
    }
}


/// Represents the `traceSetup` attribute in [PDSC sequences](https://open-cmsis-pack.github.io/Open-CMSIS-Pack-Spec/main/html/pdsc_family_pg.html#element_sequences)
#[derive(Debug, PartialEq, Eq, Clone, Copy, Default)]
pub enum TraceSetup {
    Full,
    #[default]
    Legacy,
}

/// Represents [PDSC sequences](https://open-cmsis-pack.github.io/Open-CMSIS-Pack-Spec/main/html/pdsc_family_pg.html#element_sequences)
#[derive(Debug, PartialEq, Eq, Default)]
pub struct Sequences {
    /// Trace setup configuration
    pub trace_setup: Option<TraceSetup>,
    /// The `<sequence>` elements as they stand in the document; they hold
    /// `<block>` and `<control>` children in document order.
    pub raw_nodes: Vec<XmlNode>,
    /// Debug Sequences
    pub sequences: Vec<Sequence>,
}

/// The values of a sequence of sequences.
pub open spec fn sequences_model(v: Seq<Sequence>) -> Seq<SequenceModel> {
    Seq::new(v.len(), |i: int| v[i]@)
}

/// What `<sequence>` elements read as, in order; the first error wins.
pub open spec fn sequences_from_nodes(nodes: Seq<XmlNode>) -> Result<Seq<SequenceModel>, ErrorModel>
    decreases nodes.len(),
{
    if nodes.len() == 0 {
        Ok(Seq::empty())
    } else {
        match sequence_from_node(nodes[0]) {
            Err(e) => Err(e),
            Ok(m) => match sequences_from_nodes(nodes.drop_first()) {
                Ok(ms) => Ok(seq![m] + ms),
                Err(e) => Err(e),
            },
        }
    }
}

impl Sequences {
    /// Reads the raw `<sequence>` elements, as [`sequences_from_nodes`] says.
    pub fn parse_raw_nodes_content(&self) -> (r: Result<Vec<Sequence>, Error>)
        ensures
            match r {
                Ok(v) => sequences_from_nodes(self.raw_nodes@) == Ok::<
                    Seq<SequenceModel>,
                    ErrorModel,
                >(sequences_model(v@)),
                Err(e) => sequences_from_nodes(self.raw_nodes@) == Err::<
                    Seq<SequenceModel>,
                    ErrorModel,
                >(e@),
            },
    {
        let ghost ns = self.raw_nodes@;
        let mut result: Vec<Sequence> = Vec::new();
        let mut i: usize = 0;
        proof {
            assert(ns.skip(0) =~= ns);
            match sequences_from_nodes(ns) {
                Ok(x) => {
                    assert(sequences_model(result@) + x =~= x);
                },
                Err(_) => {},
            }
        }
        while i < self.raw_nodes.len()
            invariant
                i <= ns.len(),
                ns == self.raw_nodes@,
                sequences_from_nodes(ns) == (match sequences_from_nodes(ns.skip(i as int)) {
                    Ok(rest) => Ok(sequences_model(result@) + rest),
                    Err(e) => Err(e),
                }),
            decreases ns.len() - i,
        {
            let ghost nk = ns.skip(i as int);
            assert(nk[0] == ns[i as int]);
            assert(nk.drop_first() =~= ns.skip(i + 1));
            let sq = match Sequence::from_node(&self.raw_nodes[i]) {
                Ok(sq) => sq,
                Err(e) => {
                    return Err(e);
                },
            };
            let ghost before = sequences_model(result@);
            result.push(sq);
            proof {
                assert(sequences_model(result@) =~= before.push(sq@));
                match sequences_from_nodes(ns.skip(i + 1)) {
                    Ok(ms) => {
                        assert(before + (seq![sq@] + ms) =~= before.push(sq@) + ms);
                    },
                    Err(_) => {},
                }
            }
            i = i + 1;
        }
        proof {
            assert(ns.skip(i as int).len() == 0);
            assert(sequences_model(result@) + Seq::<SequenceModel>::empty() =~= sequences_model(
                result@,
            ));
        }
        Ok(result)
    }

    /// Reads the raw `<sequence>` elements and stores the result in
    /// [`Self::sequences`]; on an error nothing changes.
    pub fn parse_sequences(&mut self) -> (r: Result<(), Error>)
        ensures
            final(self).trace_setup == old(self).trace_setup,
            final(self).raw_nodes == old(self).raw_nodes,
            match r {
                Ok(()) => sequences_from_nodes(old(self).raw_nodes@) == Ok::<
                    Seq<SequenceModel>,
                    ErrorModel,
                >(sequences_model(final(self).sequences@)),
                Err(e) => sequences_from_nodes(old(self).raw_nodes@) == Err::<
                    Seq<SequenceModel>,
                    ErrorModel,
                >(e@) && final(self).sequences == old(self).sequences,
            },
    {
        match self.parse_raw_nodes_content() {
            Ok(v) => {
                self.sequences = v;
                Ok(())
            },
            Err(e) => Err(e),
        }
    }
}


// ---------------------------------------------------------------------------
// Flash information.

/// Represents a [PDSC flashinfo](https://open-cmsis-pack.github.io/Open-CMSIS-Pack-Spec/main/html/pdsc_family_pg.html#element_flashinfo) element
#[derive(Debug, PartialEq, Eq, Clone, Default)]
pub struct FlashInfo {
    /// Name of the flash device
    pub name: String,
    /// Start address of the flash device (hex string)
    pub start: String,
    /// Flash page size in bytes (hex string)
    pub pagesize: String,
    /// Erased-byte value (hex string, usually `"0xFF"`)
    pub blankval: Option<String>,
    /// Fill byte value for gaps (hex string)
    pub filler: Option<String>,
    /// Page program time in microseconds
    pub ptime: Option<u32>,
    /// Sector erase time in microseconds
    pub etime: Option<u32>,
    /// Processor instance name this info applies to
    pub pname: Option<String>,
    /// Contiguous flash blocks and gaps, in document order (0..*)
    pub elements: Vec<FlashInfoElement>,
}

/// A contiguous block within a flash device
#[derive(Debug, PartialEq, Eq, Clone, Default)]
pub struct FlashBlock {
    /// Count of sectors in this block
    pub count: u32,
    /// Sector size in bytes (hex string)
    pub size: String,
    /// Optional argument to pass to a sequence that is part of a flash operation
    pub arg: Option<String>,
}

/// A gap between flash regions
#[derive(Debug, PartialEq, Eq, Clone, Default)]
pub struct FlashGap {
    /// Gap sector size in bytes (hex string)
    pub size: String,
}

/// The valid `<flashinfo>` child elements, with document order preserved
#[derive(Debug, PartialEq, Eq, Clone)]
pub enum FlashInfoElement {
    /// A contiguous flash block, see [`FlashBlock`]
    Block(FlashBlock),
    /// A gap between flash regions, see [`FlashGap`]
    Gap(FlashGap),
}

impl Default for FlashInfoElement {
    fn default() -> (r: Self)
        ensures
            r@ == FlashElementModel::Block(0, Seq::empty(), None),
    {
        FlashInfoElement::Block(FlashBlock { count: 0, size: String::new(), arg: None })
    }
}

/// The value of a [`FlashInfoElement`]: a block's count, size and argument,
/// or a gap's size.
pub enum FlashElementModel {
    Block(u32, Seq<char>, Option<Seq<char>>),
    Gap(Seq<char>),
}

impl View for FlashInfoElement {
    type V = FlashElementModel;

    open spec fn view(&self) -> FlashElementModel {
        match self {
            FlashInfoElement::Block(b) => FlashElementModel::Block(b.count, b.size@, opt_view(b.arg)),
            FlashInfoElement::Gap(g) => FlashElementModel::Gap(g.size@),
        }
    }
}

/// The value of a [`FlashInfo`].
pub struct FlashInfoModel {
    pub name: Seq<char>,
    pub start: Seq<char>,
    pub pagesize: Seq<char>,
    pub blankval: Option<Seq<char>>,
    pub filler: Option<Seq<char>>,
    pub ptime: Option<u32>,
    pub etime: Option<u32>,
    pub pname: Option<Seq<char>>,
    pub elements: Seq<FlashElementModel>,
}

/// The values of a sequence of flash elements.
pub open spec fn flash_elements_model(v: Seq<FlashInfoElement>) -> Seq<FlashElementModel> {
    Seq::new(v.len(), |i: int| v[i]@)
}

impl View for FlashInfo {
    type V = FlashInfoModel;

    open spec fn view(&self) -> FlashInfoModel {
        FlashInfoModel {
            name: self.name@,
            start: self.start@,
            pagesize: self.pagesize@,
            blankval: opt_view(self.blankval),
            filler: opt_view(self.filler),
            ptime: self.ptime,
            etime: self.etime,
            pname: opt_view(self.pname),
            elements: flash_elements_model(self.elements@),
        }
    }
}

/// The largest `u32`.
pub open spec fn u32_max() -> nat {
    0xFFFF_FFFF
}

/// What a sector count reads as: trimmed, hexadecimal after `0x` or `0X`,
/// else decimal, at most `u32::MAX`.
pub open spec fn uint_value(v: Seq<char>) -> Option<nat> {
    let t = trim(v);
    if starts_with(t, "0x"@) {
        parse_unsigned(t.subrange("0x"@.len() as int, t.len() as int), 16, u32_max())
    } else if starts_with(t, "0X"@) {
        parse_unsigned(t.subrange("0X"@.len() as int, t.len() as int), 16, u32_max())
    } else {
        parse_unsigned(t, 10, u32_max())
    }
}

/// Reads a sector count, as [`uint_value`] says.
pub fn parse_uint(s: &str) -> (r: Option<u32>)
    ensures
        match r {
            Some(n) => uint_value(s@) == Some(n as nat),
            None => uint_value(s@) is None,
        },
{
    let v = str_to_chars(s);
    proof {
        assert(v@.subrange(0, v@.len() as int) =~= s@);
    }
    let (a, b) = trim_bounds(&v, 0, v.len());
    let lower = str_to_chars("0x");
    let upper = str_to_chars("0X");
    let ghost t = v@.subrange(a as int, b as int);
    let r = if has_prefix_at(&v, a, b, &lower) {
        proof {
            assert(t.subrange(lower@.len() as int, t.len() as int) =~= v@.subrange(
                a + lower@.len(),
                b as int,
            ));
        }
        parse_unsigned_chars(&v, a + lower.len(), b, 16, 0xFFFF_FFFF)
    } else if has_prefix_at(&v, a, b, &upper) {
        proof {
            assert(t.subrange(upper@.len() as int, t.len() as int) =~= v@.subrange(
                a + upper@.len(),
                b as int,
            ));
        }
        parse_unsigned_chars(&v, a + upper.len(), b, 16, 0xFFFF_FFFF)
    } else {
        parse_unsigned_chars(&v, a, b, 10, 0xFFFF_FFFF)
    };
    match r {
        Some(n) => Some(n as u32),
        None => None,
    }
}

/// What a `<block>` child of `<flashinfo>` reads as: `count` (required, see
/// [`uint_value`]), `size` (required) and `arg`.
pub open spec fn flash_block_from_node(node: XmlNode) -> Result<FlashElementModel, ErrorModel> {
    let count = match attr(node, "count"@) {
        None => Err(ErrorModel::Xml(XmlErrorModel::MissingField("count"@))),
        Some(v) => match uint_value(v) {
            Some(n) => Ok(n as u32),
            None => Err(ErrorModel::Xml(XmlErrorModel::InvalidInteger("count"@))),
        },
    };
    match count {
        Err(e) => Err(e),
        Ok(c) => match attr(node, "size"@) {
            None => Err(ErrorModel::Xml(XmlErrorModel::MissingField("size"@))),
            Some(size) => Ok(FlashElementModel::Block(c, size, attr(node, "arg"@))),
        },
    }
}

/// What a child element of `<flashinfo>` reads as: a `<block>` or a `<gap>`
/// (the tag compared in lower case); a gap has a required `size`.
pub open spec fn flash_element_from_node(node: XmlNode) -> Result<FlashElementModel, ErrorModel> {
    if !node.is_element {
        Err(ErrorModel::Family(FamilyErrorModel::UnimplementedContent))
    } else {
        let tag = lowercase(node.tag_name@);
        if tag == "block"@ {
            flash_block_from_node(node)
        } else if tag == "gap"@ {
            match attr(node, "size"@) {
                None => Err(ErrorModel::Xml(XmlErrorModel::MissingField("size"@))),
                Some(size) => Ok(FlashElementModel::Gap(size)),
            }
        } else {
            Err(ErrorModel::Family(FamilyErrorModel::UnknownElementType(tag)))
        }
    }
}

/// The name of the first `ptime` or `etime` attribute, in document order,
/// whose value does not read as a `u32`.
pub open spec fn invalid_time_attribute(attrs: Seq<XmlAttribute>) -> Option<Seq<char>>
    decreases attrs.len(),
{
    if attrs.len() == 0 {
        None
    } else {
        let a = attrs[0];
        if (a.name@ == "ptime"@ || a.name@ == "etime"@) && attribute_unsigned(a.value@, u32_max())
            is None {
            Some(a.name@)
        } else {
            invalid_time_attribute(attrs.drop_first())
        }
    }
}

/// Where no time attribute is invalid, the first `ptime` or `etime` reads.
proof fn lemma_time_reads(attrs: Seq<XmlAttribute>, name: Seq<char>)
    requires
        invalid_time_attribute(attrs) is None,
        name == "ptime"@ || name == "etime"@,
    ensures
        attribute_value(attrs, name) matches Some(v) ==> attribute_unsigned(v, u32_max()) is Some,
    decreases attrs.len(),
{
    if attrs.len() > 0 {
        lemma_time_reads(attrs.drop_first(), name);
    }
}

/// The value of an optional time attribute.
pub open spec fn time_value(v: Option<Seq<char>>) -> Option<u32> {
    match v {
        Some(t) => match attribute_unsigned(t, u32_max()) {
            Some(n) => Some(n as u32),
            None => None,
        },
        None => None,
    }
}

/// What the element children of a `<flashinfo>` node from the `i`-th child
/// on read as, in order; the first error wins.
pub open spec fn flash_elements_from_children(node: XmlNode, i: int) -> Result<
    Seq<FlashElementModel>,
    ErrorModel,
>
    decreases node.children@.len() - i,
{
    if i < 0 || i >= node.children@.len() {
        Ok(Seq::empty())
    } else {
        let c = node.children@[i];
        if !c.is_element {
            flash_elements_from_children(node, i + 1)
        } else {
            match flash_element_from_node(c) {
                Err(e) => Err(e),
                Ok(m) => match flash_elements_from_children(node, i + 1) {
                    Ok(ms) => Ok(seq![m] + ms),
                    Err(e) => Err(e),
                },
            }
        }
    }
}

/// What a `<flashinfo>` element reads as. Its `ptime` and `etime` values must
/// read as `u32` (the first that does not, in document order, is the error);
/// then `name`, `start` and `pagesize` are required, in that order; then its
/// child elements are read.
pub open spec fn flash_info_from_node(node: XmlNode) -> Result<FlashInfoModel, ErrorModel> {
    match invalid_time_attribute(node.attributes@) {
        Some(n) => Err(ErrorModel::Xml(XmlErrorModel::InvalidInteger(n))),
        None => match attr(node, "name"@) {
            None => Err(ErrorModel::Xml(XmlErrorModel::MissingField("name"@))),
            Some(name) => match attr(node, "start"@) {
                None => Err(ErrorModel::Xml(XmlErrorModel::MissingField("start"@))),
                Some(start) => match attr(node, "pagesize"@) {
                    None => Err(ErrorModel::Xml(XmlErrorModel::MissingField("pagesize"@))),
                    Some(pagesize) => match flash_elements_from_children(node, 0) {
                        Err(e) => Err(e),
                        Ok(elements) => Ok(
                            FlashInfoModel {
                                name,
                                start,
                                pagesize,
                                blankval: attr(node, "blankval"@),
                                filler: attr(node, "filler"@),
                                ptime: time_value(attr(node, "ptime"@)),
                                etime: time_value(attr(node, "etime"@)),
                                pname: attr(node, "Pname"@),
                                elements,
                            },
                        ),
                    },
                },
            },
        },
    }
}

/// What `<flashinfo>` elements read as, in order; the first error wins.
pub open spec fn flash_infos_from_nodes(nodes: Seq<XmlNode>) -> Result<
    Seq<FlashInfoModel>,
    ErrorModel,
>
    decreases nodes.len(),
{
    if nodes.len() == 0 {
        Ok(Seq::empty())
    } else {
        match flash_info_from_node(nodes[0]) {
            Err(e) => Err(e),
            Ok(m) => match flash_infos_from_nodes(nodes.drop_first()) {
                Ok(ms) => Ok(seq![m] + ms),
                Err(e) => Err(e),
            },
        }
    }
}

/// The values of a sequence of flash infos.
pub open spec fn flash_infos_model(v: Seq<FlashInfo>) -> Seq<FlashInfoModel> {
    Seq::new(v.len(), |i: int| v[i]@)
}

/// A required attribute, copied.
fn required_attribute(node: &XmlNode, name: &str) -> (r: Result<String, Error>)
    ensures
        match r {
            Ok(v) => attr(*node, name@) == Some(v@),
            Err(e) => attr(*node, name@) is None && e@ == ErrorModel::Xml(
                XmlErrorModel::MissingField(name@),
            ),
        },
{
    match node.attribute(name) {
        Some(v) => Ok(v.clone()),
        None => Err(Error::Xml(XmlValueError::MissingField(name.to_owned()))),
    }
}

impl FlashInfoElement {
    /// Reads a child element of `<flashinfo>`, as [`flash_element_from_node`]
    /// says.
    pub fn from_node(node: &XmlNode) -> (r: Result<FlashInfoElement, Error>)
        ensures
            match r {
                Ok(e) => flash_element_from_node(*node) == Ok::<FlashElementModel, ErrorModel>(e@),
                Err(e) => flash_element_from_node(*node) == Err::<FlashElementModel, ErrorModel>(
                    e@,
                ),
            },
    {
        if !node.is_element {
            return Err(Error::Family(FamilyParseError::UnimplementedContent));
        }
        let tag = to_lowercase_text(node.tag_name.as_str());
        if str_eq(tag.as_str(), "block") {
            let count = match node.attribute("count") {
                None => {
                    return Err(Error::Xml(XmlValueError::MissingField("count".to_owned())));
                },
                Some(v) => match parse_uint(v.as_str()) {
                    Some(n) => n,
                    None => {
                        return Err(Error::Xml(XmlValueError::InvalidInteger("count".to_owned())));
                    },
                },
            };
            let size = match required_attribute(node, "size") {
                Ok(v) => v,
                Err(e) => {
                    return Err(e);
                },
            };
            Ok(FlashInfoElement::Block(FlashBlock { count, size, arg: copy_attribute(node, "arg") }))
        } else if str_eq(tag.as_str(), "gap") {
            match required_attribute(node, "size") {
                Ok(size) => Ok(FlashInfoElement::Gap(FlashGap { size })),
                Err(e) => Err(e),
            }
        } else {
            Err(Error::Family(FamilyParseError::UnknownElementType(tag)))
        }
    }
}

/// Reads an optional time attribute, which is known to read when present.
fn read_time(node: &XmlNode, name: &str) -> (r: Option<u32>)
    requires
        name@ == "ptime"@ || name@ == "etime"@,
        invalid_time_attribute(node.attributes@) is None,
    ensures
        r == time_value(attr(*node, name@)),
{
    proof {
        lemma_time_reads(node.attributes@, name@);
    }
    match node.attribute(name) {
        None => None,
        Some(v) => match read_unsigned_attribute(v.as_str(), 0xFFFF_FFFF) {
            Some(n) => Some(n as u32),
            None => None,
        },
    }
}

impl FlashInfo {
    /// Reads a `<flashinfo>` element, as [`flash_info_from_node`] says.
    pub fn from_node(node: &XmlNode) -> (r: Result<FlashInfo, Error>)
        ensures
            match r {
                Ok(f) => flash_info_from_node(*node) == Ok::<FlashInfoModel, ErrorModel>(f@),
                Err(e) => flash_info_from_node(*node) == Err::<FlashInfoModel, ErrorModel>(e@),
            },
    {
        let ghost attrs = node.attributes@;
        let mut i: usize = 0;
        assert(attrs.skip(0) =~= attrs);
        while i < node.attributes.len()
            invariant
                i <= attrs.len(),
                attrs == node.attributes@,
                invalid_time_attribute(attrs) == invalid_time_attribute(attrs.skip(i as int)),
            decreases attrs.len() - i,
        {
            let a = &node.attributes[i];
            assert(attrs.skip(i as int)[0] == *a);
            assert(attrs.skip(i as int).drop_first() =~= attrs.skip(i + 1));
            if str_eq(a.name.as_str(), "ptime") || str_eq(a.name.as_str(), "etime") {
                if read_unsigned_attribute(a.value.as_str(), 0xFFFF_FFFF).is_none() {
                    return Err(Error::Xml(XmlValueError::InvalidInteger(a.name.clone())));
                }
            }
            i = i + 1;
        }
        let name = match required_attribute(node, "name") {
            Ok(v) => v,
            Err(e) => {
                return Err(e);
            },
        };
        let start = match required_attribute(node, "start") {
            Ok(v) => v,
            Err(e) => {
                return Err(e);
            },
        };
        let pagesize = match required_attribute(node, "pagesize") {
            Ok(v) => v,
            Err(e) => {
                return Err(e);
            },
        };
        let mut elements: Vec<FlashInfoElement> = Vec::new();
        let mut k: usize = 0;
        proof {
            match flash_elements_from_children(*node, 0) {
                Ok(x) => {
                    assert(flash_elements_model(elements@) + x =~= x);
                },
                Err(_) => {},
            }
        }
        while k < node.children.len()
            invariant
                k <= node.children@.len(),
                invalid_time_attribute(node.attributes@) is None,
                attr(*node, "name"@) == Some(name@),
                attr(*node, "start"@) == Some(start@),
                attr(*node, "pagesize"@) == Some(pagesize@),
                flash_elements_from_children(*node, 0) == (match flash_elements_from_children(
                    *node,
                    k as int,
                ) {
                    Ok(rest) => Ok(flash_elements_model(elements@) + rest),
                    Err(e) => Err(e),
                }),
            decreases node.children@.len() - k,
        {
            let c = &node.children[k];
            if c.is_element {
                let e = match FlashInfoElement::from_node(c) {
                    Ok(e) => e,
                    Err(err) => {
                        return Err(err);
                    },
                };
                let ghost before = flash_elements_model(elements@);
                elements.push(e);
                proof {
                    assert(flash_elements_model(elements@) =~= before.push(e@));
                    match flash_elements_from_children(*node, k + 1) {
                        Ok(ms) => {
                            assert(before + (seq![e@] + ms) =~= before.push(e@) + ms);
                        },
                        Err(_) => {},
                    }
                }
            }
            k = k + 1;
        }
        proof {
            assert(flash_elements_model(elements@) + Seq::<FlashElementModel>::empty()
                =~= flash_elements_model(elements@));
        }
        Ok(
            FlashInfo {
                name,
                start,
                pagesize,
                blankval: copy_attribute(node, "blankval"),
                filler: copy_attribute(node, "filler"),
                ptime: read_time(node, "ptime"),
                etime: read_time(node, "etime"),
                pname: copy_attribute(node, "Pname"),
                elements,
            },
        )
    }
}

/// Reads `<flashinfo>` elements, preserving `<block>`/`<gap>` document order,
/// as [`flash_infos_from_nodes`] says.
pub fn parse_flashinfo(raw_nodes: &[XmlNode]) -> (r: Result<Vec<FlashInfo>, Error>)
    ensures
        match r {
            Ok(v) => flash_infos_from_nodes(raw_nodes@) == Ok::<Seq<FlashInfoModel>, ErrorModel>(
                flash_infos_model(v@),
            ),
            Err(e) => flash_infos_from_nodes(raw_nodes@) == Err::<Seq<FlashInfoModel>, ErrorModel>(
                e@,
            ),
        },
{
    let ghost ns = raw_nodes@;
    let mut result: Vec<FlashInfo> = Vec::new();
    let mut i: usize = 0;
    proof {
        assert(ns.skip(0) =~= ns);
        match flash_infos_from_nodes(ns) {
            Ok(x) => {
                assert(flash_infos_model(result@) + x =~= x);
            },
            Err(_) => {},
        }
    }
    while i < raw_nodes.len()
        invariant
            i <= ns.len(),
            ns == raw_nodes@,
            flash_infos_from_nodes(ns) == (match flash_infos_from_nodes(ns.skip(i as int)) {
                Ok(rest) => Ok(flash_infos_model(result@) + rest),
                Err(e) => Err(e),
            }),
        decreases ns.len() - i,
    {
        let ghost nk = ns.skip(i as int);
        assert(nk[0] == ns[i as int]);
        assert(nk.drop_first() =~= ns.skip(i + 1));
        let f = match FlashInfo::from_node(&raw_nodes[i]) {
            Ok(f) => f,
            Err(e) => {
                return Err(e);
            },
        };
        let ghost before = flash_infos_model(result@);
        result.push(f);
        proof {
            assert(flash_infos_model(result@) =~= before.push(f@));
            match flash_infos_from_nodes(ns.skip(i + 1)) {
                Ok(ms) => {
                    assert(before + (seq![f@] + ms) =~= before.push(f@) + ms);
                },
                Err(_) => {},
            }
        }
        i = i + 1;
    }
    proof {
        assert(ns.skip(i as int).len() == 0);
        assert(flash_infos_model(result@) + Seq::<FlashInfoModel>::empty() =~= flash_infos_model(
            result@,
        ));
    }
    Ok(result)
}

// ---------------------------------------------------------------------------
// Copies.

/// A copy of an optional string.
fn clone_opt(o: &Option<String>) -> (r: Option<String>)
    ensures
        opt_view(r) == opt_view(*o),
{
    match o {
        Some(v) => Some(v.clone()),
        None => None,
    }
}

impl Clone for SequenceBlock {
    fn clone(&self) -> (r: Self)
        ensures
            r@ == self@,
    {
        let mut statements: Vec<Statement> = Vec::new();
        let mut i: usize = 0;
        while i < self.statements.len()
            invariant
                i <= self.statements@.len(),
                statements@.len() == i,
                forall|j: int| 0 <= j < i ==> (#[trigger] statements@[j])@ == self.statements@[j]@,
            decreases self.statements@.len() - i,
        {
            statements.push(self.statements[i].clone());
            i = i + 1;
        }
        let r = SequenceBlock {
            atomic: self.atomic,
            info: clone_opt(&self.info),
            content: self.content.clone(),
            statements,
        };
        assert(statements_model(r.statements@) =~= statements_model(self.statements@));
        r
    }
}

/// A copy of a sequence element.
fn clone_element(e: &SequenceElement) -> (r: SequenceElement)
    ensures
        r@ == e@,
    decreases *e,
{
    match e {
        SequenceElement::Control(c) => SequenceElement::Control(clone_control(c)),
        SequenceElement::Block(b) => SequenceElement::Block(b.clone()),
    }
}

/// A copy of the elements `v`.
fn clone_elements(v: &Vec<SequenceElement>, parent: Ghost<SequenceControl>) -> (r: Vec<SequenceElement>)
    requires
        parent@.elements == *v,
    ensures
        elements_model(r@) == elements_model(v@),
    decreases parent@, 0nat,
{
    let mut out: Vec<SequenceElement> = Vec::new();
    let mut i: usize = 0;
    let ghost g = parent@;
    while i < v.len()
        invariant
            g == parent@,
            g.elements == *v,
            i <= v@.len(),
            out@.len() == i,
            forall|j: int| 0 <= j < i ==> (#[trigger] out@[j])@ == v@[j]@,
        decreases v@.len() - i,
    {
        proof {
            assert(decreases_to!(g => g.elements));
            assert(decreases_to!(g.elements => g.elements@));
            assert(decreases_to!(g.elements@ => g.elements@[i as int]));
        }
        out.push(clone_element(&v[i]));
        i = i + 1;
    }
    assert(elements_model(out@) =~= elements_model(v@));
    out
}

/// A copy of a control element.
fn clone_control(c: &SequenceControl) -> (r: SequenceControl)
    ensures
        r@ == c@,
    decreases *c, 1nat,
{
    let elements = clone_elements(&c.elements, Ghost(*c));
    let conditional = match &c.conditional {
        Some(e) => Some(e.clone()),
        None => None,
    };
    let r = SequenceControl {
        conditional_if: clone_opt(&c.conditional_if),
        conditional_while: clone_opt(&c.conditional_while),
        timeout: c.timeout,
        info: clone_opt(&c.info),
        elements,
        conditional,
    };
    assert(control_model(r).elements =~= control_model(*c).elements) by {
        assert(control_model(r).elements =~= elements_model(r.elements@));
        assert(control_model(*c).elements =~= elements_model(c.elements@));
    }
    r
}

impl Clone for SequenceElement {
    fn clone(&self) -> (r: Self)
        ensures
            r@ == self@,
    {
        clone_element(self)
    }
}

impl Clone for SequenceControl {
    fn clone(&self) -> (r: Self)
        ensures
            r@ == self@,
    {
        clone_control(self)
    }
}

impl Clone for Sequence {
    fn clone(&self) -> (r: Self)
        ensures
            r@ == self@,
    {
        let mut elements: Vec<SequenceElement> = Vec::new();
        let mut i: usize = 0;
        while i < self.elements.len()
            invariant
                i <= self.elements@.len(),
                elements@.len() == i,
                forall|j: int| 0 <= j < i ==> (#[trigger] elements@[j])@ == self.elements@[j]@,
            decreases self.elements@.len() - i,
        {
            elements.push(clone_element(&self.elements[i]));
            i = i + 1;
        }
        let r = Sequence {
            name: self.name.clone(),
            processor_name: clone_opt(&self.processor_name),
            disable: self.disable,
            info: clone_opt(&self.info),
            elements,
        };
        assert(elements_model(r.elements@) =~= elements_model(self.elements@));
        r
    }
}

impl Clone for Sequences {
    fn clone(&self) -> (r: Self)
        ensures
            r.trace_setup == self.trace_setup,
            r.raw_nodes@.len() == self.raw_nodes@.len(),
            forall|i: int| 0 <= i < r.raw_nodes@.len() ==> (#[trigger] r.raw_nodes@[i])@ == self.raw_nodes@[i]@,
            sequences_model(r.sequences@) == sequences_model(self.sequences@),
    {
        let mut raw_nodes: Vec<XmlNode> = Vec::new();
        let mut i: usize = 0;
        while i < self.raw_nodes.len()
            invariant
                i <= self.raw_nodes@.len(),
                raw_nodes@.len() == i,
                forall|j: int| 0 <= j < i ==> (#[trigger] raw_nodes@[j])@ == self.raw_nodes@[j]@,
            decreases self.raw_nodes@.len() - i,
        {
            raw_nodes.push(self.raw_nodes[i].clone());
            i = i + 1;
        }
        let mut sequences: Vec<Sequence> = Vec::new();
        let mut k: usize = 0;
        while k < self.sequences.len()
            invariant
                k <= self.sequences@.len(),
                sequences@.len() == k,
                forall|j: int| 0 <= j < k ==> (#[trigger] sequences@[j])@ == self.sequences@[j]@,
            decreases self.sequences@.len() - k,
        {
            sequences.push(self.sequences[k].clone());
            k = k + 1;
        }
        assert(sequences_model(sequences@) =~= sequences_model(self.sequences@));
        Sequences { trace_setup: self.trace_setup, raw_nodes, sequences }
    }
}

// ---------------------------------------------------------------------------
// Conversions from XML nodes.

impl<'a> TryFrom<&'a XmlNode> for Sequence {
    type Error = Error;

    fn try_from(value: &'a XmlNode) -> (r: Result<Sequence, Error>)
        ensures
            match r {
                Ok(x) => sequence_from_node(*value) == Ok::<SequenceModel, ErrorModel>(x@),
                Err(e) => sequence_from_node(*value) == Err::<SequenceModel, ErrorModel>(e@),
            },
    {
        Sequence::from_node(value)
    }
}

impl<'a> vstd::std_specs::convert::TryFromSpecImpl<&'a XmlNode> for Sequence {
    open spec fn obeys_try_from_spec() -> bool {
        false
    }

    open spec fn try_from_spec(value: &'a XmlNode) -> Result<Sequence, Error> {
        vstd::pervasive::arbitrary()
    }
}

impl<'a> TryFrom<&'a XmlNode> for SequenceElement {
    type Error = Error;

    fn try_from(value: &'a XmlNode) -> (r: Result<SequenceElement, Error>)
        ensures
            match r {
                Ok(x) => element_from_node(*value) == Ok::<ElementModel, ErrorModel>(x@),
                Err(e) => element_from_node(*value) == Err::<ElementModel, ErrorModel>(e@),
            },
    {
        SequenceElement::from_node(value)
    }
}

impl<'a> vstd::std_specs::convert::TryFromSpecImpl<&'a XmlNode> for SequenceElement {
    open spec fn obeys_try_from_spec() -> bool {
        false
    }

    open spec fn try_from_spec(value: &'a XmlNode) -> Result<SequenceElement, Error> {
        vstd::pervasive::arbitrary()
    }
}

impl<'a> TryFrom<&'a XmlNode> for SequenceBlock {
    type Error = Error;

    fn try_from(value: &'a XmlNode) -> (r: Result<SequenceBlock, Error>)
        ensures
            match r {
                Ok(x) => block_from_node(*value) == Ok::<BlockModel, ErrorModel>(x@),
                Err(e) => block_from_node(*value) == Err::<BlockModel, ErrorModel>(e@),
            },
    {
        SequenceBlock::from_node(value)
    }
}

impl<'a> vstd::std_specs::convert::TryFromSpecImpl<&'a XmlNode> for SequenceBlock {
    open spec fn obeys_try_from_spec() -> bool {
        false
    }

    open spec fn try_from_spec(value: &'a XmlNode) -> Result<SequenceBlock, Error> {
        vstd::pervasive::arbitrary()
    }
}

impl<'a> TryFrom<&'a XmlNode> for SequenceControl {
    type Error = Error;

    fn try_from(value: &'a XmlNode) -> (r: Result<SequenceControl, Error>)
        ensures
            match r {
                Ok(x) => control_from_node(*value) == Ok::<ControlModel, ErrorModel>(x@),
                Err(e) => control_from_node(*value) == Err::<ControlModel, ErrorModel>(e@),
            },
    {
        SequenceControl::from_node(value)
    }
}

impl<'a> vstd::std_specs::convert::TryFromSpecImpl<&'a XmlNode> for SequenceControl {
    open spec fn obeys_try_from_spec() -> bool {
        false
    }

    open spec fn try_from_spec(value: &'a XmlNode) -> Result<SequenceControl, Error> {
        vstd::pervasive::arbitrary()
    }
}

impl<'a> TryFrom<&'a XmlNode> for FlashInfo {
    type Error = Error;

    fn try_from(value: &'a XmlNode) -> (r: Result<FlashInfo, Error>)
        ensures
            match r {
                Ok(x) => flash_info_from_node(*value) == Ok::<FlashInfoModel, ErrorModel>(x@),
                Err(e) => flash_info_from_node(*value) == Err::<FlashInfoModel, ErrorModel>(e@),
            },
    {
        FlashInfo::from_node(value)
    }
}

impl<'a> vstd::std_specs::convert::TryFromSpecImpl<&'a XmlNode> for FlashInfo {
    open spec fn obeys_try_from_spec() -> bool {
        false
    }

    open spec fn try_from_spec(value: &'a XmlNode) -> Result<FlashInfo, Error> {
        vstd::pervasive::arbitrary()
    }
}

impl<'a> TryFrom<&'a XmlNode> for FlashInfoElement {
    type Error = Error;

    fn try_from(value: &'a XmlNode) -> (r: Result<FlashInfoElement, Error>)
        ensures
            match r {
                Ok(x) => flash_element_from_node(*value) == Ok::<FlashElementModel, ErrorModel>(x@),
                Err(e) => flash_element_from_node(*value) == Err::<FlashElementModel, ErrorModel>(e@),
            },
    {
        FlashInfoElement::from_node(value)
    }
}

impl<'a> vstd::std_specs::convert::TryFromSpecImpl<&'a XmlNode> for FlashInfoElement {
    open spec fn obeys_try_from_spec() -> bool {
        false
    }

    open spec fn try_from_spec(value: &'a XmlNode) -> Result<FlashInfoElement, Error> {
        vstd::pervasive::arbitrary()
    }
}

/// What an `xs:boolean` attribute reads as: `true` or `1`, `false` or `0`.
pub open spec fn xs_bool_value(s: Seq<char>) -> Option<bool> {
    if s == "true"@ || s == "1"@ {
        Some(true)
    } else if s == "false"@ || s == "0"@ {
        Some(false)
    } else {
        None
    }
}

/// Reads an `xs:boolean` attribute, as [`xs_bool_value`] says.
pub fn parse_xs_bool(s: &str) -> (r: Option<bool>)
    ensures
        r == xs_bool_value(s@),
{
    if str_eq(s, "true") || str_eq(s, "1") {
        Some(true)
    } else if str_eq(s, "false") || str_eq(s, "0") {
        Some(false)
    } else {
        None
    }
}

/// The XSD default value of [`Algorithm::endian`].
pub fn default_algorithm_endian() -> (r: String)
    ensures
        r@ == "Little-endian"@,
{
    "Little-endian".to_owned()
}

// ---------------------------------------------------------------------------
// The family element and the elements it holds.

/// Represents [PDSC Family](https://open-cmsis-pack.github.io/Open-CMSIS-Pack-Spec/main/html/pdsc_family_pg.html)
#[derive(Debug, PartialEq, Eq, Clone, Default)]
pub struct Family {
    /// The device family name
    pub device_family: String,

    /// The device manufacturer/vendor; valid values: [DeviceVendorEnum](https://open-cmsis-pack.github.io/Open-CMSIS-Pack-Spec/main/html/packFormat.html)
    pub vendor: String,

    /// Date this family was deprecated (`xs:date`, e.g. `2020-01-01`)
    pub deprecated: Option<String>,

    /// Brief family description (0..*)
    pub description: Vec<String>,

    /// Processor definitions (0..*)
    pub processor: Vec<Processor>,

    /// Compile-time definitions (0..*)
    pub compile: Vec<Compile>,

    /// Debug unit assignments (0..*)
    pub debug: Vec<FamilyDebug>,

    /// Debug configuration (0..1)
    pub debugconfig: Option<DebugConfig>,

    /// Debug port definitions (0..*)
    pub debugport: Vec<DebugPort>,

    /// Access port v1 definitions (0..*)
    pub access_port_v1: Vec<AccessPortV1>,

    /// Access port v2 definitions (0..*)
    pub access_port_v2: Vec<AccessPortV2>,

    /// Flash programming algorithms (0..*)
    pub algorithm: Vec<Algorithm>,

    /// Raw `<flashinfo>` nodes; see [`FlashInfo`]'s `TryFrom<Node>` impl for why these are deferred.
    pub flashinfo_raw: Vec<XmlNode>,

    /// Flash information (0..*), populated from [`Self::flashinfo_raw`] by [`parse_flashinfo`]
    pub flashinfo: Vec<FlashInfo>,

    /// Memory regions (0..*)
    pub memory: Vec<Memory>,

    /// Trace unit definitions (0..*)
    pub trace: Vec<Trace>,

    /// Reference documentation (0..*)
    pub book: Vec<Book>,

    /// Feature descriptors (0..*)
    pub feature: Vec<Feature>,

    /// Tool environment entries (0..*)
    pub environment: Vec<FamilyEnvironment>,

    /// Sub-family groupings within this family (0..*)
    pub sub_families: Vec<SubFamily>,

    /// Devices directly in this family, without a sub-family grouping (0..*)
    pub devices: Vec<Device>,

    /// Global debug variables
    pub debugvars: Debugvars,

    /// Debug sequences
    pub sequences: Sequences,
}

/// Represents a [PDSC processor](https://open-cmsis-pack.github.io/Open-CMSIS-Pack-Spec/main/html/pdsc_family_pg.html#element_processor) element
#[derive(Debug, PartialEq, Eq, Clone, Default)]
pub struct Processor {
    /// Processor instance name for multi-core devices
    pub pname: Option<String>,
    /// Number of processor units for multi-core devices
    pub punits: Option<u32>,
    /// Processor core; valid values: [DcoreEnum](https://open-cmsis-pack.github.io/Open-CMSIS-Pack-Spec/main/html/packFormat.html)
    pub dcore: Option<String>,
    /// Processor core architecture version
    pub dcore_version: Option<String>,
    /// Floating point unit; valid values: [DfpuEnum](https://open-cmsis-pack.github.io/Open-CMSIS-Pack-Spec/main/html/packFormat.html)
    pub dfpu: Option<String>,
    /// Memory protection unit; valid values: [DmpuEnum](https://open-cmsis-pack.github.io/Open-CMSIS-Pack-Spec/main/html/packFormat.html)
    pub dmpu: Option<String>,
    /// DSP instructions support; valid values: [DdspEnum](https://open-cmsis-pack.github.io/Open-CMSIS-Pack-Spec/main/html/packFormat.html)
    pub ddsp: Option<String>,
    /// M-Profile Vector Extension (Helium); valid values: [DmveEnum](https://open-cmsis-pack.github.io/Open-CMSIS-Pack-Spec/main/html/packFormat.html)
    pub dmve: Option<String>,
    /// Pointer Authentication and Branch Target Identification; valid values: [DpacbtiEnum](https://open-cmsis-pack.github.io/Open-CMSIS-Pack-Spec/main/html/packFormat.html)
    pub dpacbti: Option<String>,
    /// TrustZone support; valid values: [DtzEnum](https://open-cmsis-pack.github.io/Open-CMSIS-Pack-Spec/main/html/packFormat.html)
    pub dtz: Option<String>,
    /// Endianness; valid values: [DendianEnum](https://open-cmsis-pack.github.io/Open-CMSIS-Pack-Spec/main/html/packFormat.html)
    pub dendian: Option<String>,
    /// Maximum processor clock frequency in Hz
    pub dclock: Option<u64>,
}

/// Represents a [PDSC compile](https://open-cmsis-pack.github.io/Open-CMSIS-Pack-Spec/main/html/pdsc_family_pg.html#element_compile) element
#[derive(Debug, PartialEq, Eq, Clone, Default)]
pub struct Compile {
    /// Processor instance name for multi-core devices
    pub pname: Option<String>,
    /// Include file path injected into all projects
    pub header: Option<String>,
    /// Preprocessor define injected into all projects
    pub define: Option<String>,
    /// Processor-specific preprocessor define
    pub pdefine: Option<String>,
}

/// Represents a [PDSC debug](https://open-cmsis-pack.github.io/Open-CMSIS-Pack-Spec/main/html/pdsc_family_pg.html#element_debug) element
#[derive(Debug, PartialEq, Eq, Clone, Default)]
pub struct FamilyDebug {
    /// Processor instance name
    pub pname: Option<String>,
    /// Processor unit index for multi-core devices
    pub punit: Option<u32>,
    /// Path to the SVD file describing the device registers
    pub svd: Option<String>,
    /// Debug port index
    pub dp: Option<u32>,
    /// Access port index (legacy; use `apid` when possible)
    pub ap: Option<u32>,
    /// Access port identifier
    pub apid: Option<u32>,
    /// Base address of the debug component
    pub address: Option<String>,
    /// Default debug sequence used to reset this debug unit
    pub default_reset_sequence: Option<String>,
    /// Data patches applied to this debug unit (0..*)
    pub datapatch: Vec<DataPatch>,
}

/// Represents a [PDSC datapatch](https://open-cmsis-pack.github.io/Open-CMSIS-Pack-Spec/main/html/pdsc_family_pg.html#element_datapatch) element
#[derive(Debug, PartialEq, Eq, Clone, Default)]
pub struct DataPatch {
    /// Access type; valid values: `AP`, `Mem`
    pub patch_type: Option<String>,
    /// Address to patch (hex or decimal string)
    pub address: u32,
    /// Debug port index
    pub dp: Option<u32>,
    /// Access port index
    pub ap: Option<u32>,
    /// Value to write during the patch (hex or decimal string)
    pub value: u32,
    /// Optional bitmask applied to the patch
    pub mask: Option<String>,
    /// Descriptive text about the patch
    pub info: Option<String>,
    /// Access port identifier
    pub apid: Option<u32>,
}

/// Represents a [PDSC debugconfig](https://open-cmsis-pack.github.io/Open-CMSIS-Pack-Spec/main/html/pdsc_family_pg.html#element_debugconfig) element
#[derive(Debug, PartialEq, Eq, Clone, Default)]
pub struct DebugConfig {
    /// Default debug interface (`swd`, `jtag`, `cjtag`)
    pub default: Option<String>,
    /// Default debug clock frequency in Hz
    pub clock: Option<u64>,
    /// SWJ-DP is available (supports both SWD and JTAG)
    pub swj: Option<bool>,
    /// Dormant state is supported
    pub dormant: Option<bool>,
    /// Path to the debugger system description file
    pub sdf: Option<String>,
}

/// Represents a [PDSC debugport](https://open-cmsis-pack.github.io/Open-CMSIS-Pack-Spec/main/html/pdsc_family_pg.html#element_debugport) element
#[derive(Debug, PartialEq, Eq, Clone, Default)]
pub struct DebugPort {
    /// Debug port index
    pub dp: Option<u32>,
    /// JTAG port configuration
    pub jtag: Option<DebugPortJtag>,
    /// SWD port configuration
    pub swd: Option<DebugPortSwd>,
}

/// JTAG debug port parameters
#[derive(Debug, PartialEq, Eq, Clone, Default)]
pub struct DebugPortJtag {
    /// TAP index on the JTAG chain
    pub tapindex: Option<u32>,
    /// JTAG IDCODE value
    pub idcode: Option<u32>,
    /// Target selection value (SWD-DP multidrop)
    pub targetsel: Option<u32>,
    /// Instruction register length in bits
    pub irlen: Option<u32>,
}

/// SWD debug port parameters
#[derive(Debug, PartialEq, Eq, Clone, Default)]
pub struct DebugPortSwd {
    /// SWD-DP IDCODE value
    pub idcode: Option<u32>,
    /// Target selection value (SWD-DP multidrop)
    pub targetsel: Option<u32>,
}

/// Represents a [PDSC accessportV1](https://open-cmsis-pack.github.io/Open-CMSIS-Pack-Spec/main/html/pdsc_family_pg.html#element_accessportV1) element
#[derive(Debug, PartialEq, Eq, Clone, Default)]
pub struct AccessPortV1 {
    /// Access port identifier
    pub apid: u32,
    /// Parent debug port index
    pub dp: Option<u32>,
    /// APv1 index on the debug port
    pub index: u32,
    /// HPROT bus attribute bits
    pub hprot: Option<u32>,
    /// Secure privileged access enable
    pub sprot: Option<u32>,
}

/// Represents a [PDSC accessportV2](https://open-cmsis-pack.github.io/Open-CMSIS-Pack-Spec/main/html/pdsc_family_pg.html#element_accessportV2) element
#[derive(Debug, PartialEq, Eq, Clone, Default)]
pub struct AccessPortV2 {
    /// Access port identifier
    pub apid: u32,
    /// Parent debug port index
    pub dp: Option<u32>,
    /// Base address of the access port
    pub address: String,
    /// HPROT bus attribute bits
    pub hprot: Option<u32>,
    /// Secure privileged access enable
    pub sprot: Option<u32>,
    /// Parent access port identifier for hierarchical APv2
    pub parent: Option<u32>,
}

/// Represents a [PDSC algorithm](https://open-cmsis-pack.github.io/Open-CMSIS-Pack-Spec/main/html/pdsc_family_pg.html#element_algorithm) element
#[derive(Debug, PartialEq, Eq, Clone, Default)]
pub struct Algorithm {
    /// Path to the flash algorithm file (.FLM)
    pub name: String,
    /// Start address of the flash region (hex string, e.g. `"0x00000000"`)
    pub start: Option<String>,
    /// Size of the flash region in bytes (hex string, e.g. `"0x00010000"`)
    pub size: Option<String>,
    /// Start address of the RAM buffer used by the algorithm
    pub ram_start: Option<String>,
    /// Size of the RAM buffer in bytes
    pub ram_size: Option<String>,
    /// If `true`, this is the default algorithm for the device
    pub default: Option<bool>,
    /// Algorithm style (`Keil` or `IAR`)
    pub style: Option<String>,
    /// Processor instance name this algorithm applies to
    pub pname: Option<String>,
    /// Index of the mounted device this algorithm applies to (only used by board descriptions with multiple mounted devices)
    pub device_index: Option<String>,
    /// Parameter passed on algorithm invocation
    pub parameter: Option<String>,
    /// Endianness of the algorithm; valid values: [DendianEnum](https://open-cmsis-pack.github.io/Open-CMSIS-Pack-Spec/main/html/packFormat.html); defaults to `"Little-endian"`
    pub endian: String,
}

/// Represents a [PDSC memory](https://open-cmsis-pack.github.io/Open-CMSIS-Pack-Spec/main/html/pdsc_family_pg.html#element_memory) element
#[derive(Debug, PartialEq, Eq, Clone, Default)]
pub struct Memory {
    /// Unique name for this memory region
    pub name: Option<String>,
    /// Access permissions (`r`, `rw`, `rwx`, etc.)
    pub access: Option<String>,
    /// Start address of the memory region (hex string)
    pub start: String,
    /// Size of the memory region in bytes (hex string)
    pub size: String,
    /// If `true`, this is the default memory region
    pub default: Option<bool>,
    /// If `true`, this region contains the startup code
    pub startup: Option<bool>,
    /// If `true`, do not zero-initialise this region
    pub uninit: Option<bool>,
    /// Name of the memory region this region aliases
    pub alias: Option<String>,
    /// Processor instance name this region applies to
    pub pname: Option<String>,
}

/// Represents a [PDSC trace](https://open-cmsis-pack.github.io/Open-CMSIS-Pack-Spec/main/html/pdsc_family_pg.html#element_trace) element
#[derive(Debug, PartialEq, Eq, Clone, Default)]
pub struct Trace {
    /// Processor instance name
    pub pname: Option<String>,
    /// Serial wire trace configurations (0..*)
    pub serialwire: Vec<SerialWire>,
    /// Parallel trace port configurations (0..*)
    pub traceport: Vec<TracePort>,
    /// Trace buffer configurations (0..*)
    pub tracebuffer: Vec<TraceBuffer>,
}

/// Represents a [PDSC serialwire](https://open-cmsis-pack.github.io/Open-CMSIS-Pack-Spec/main/html/pdsc_family_pg.html#element_serialwire) element
///
/// This element only defines vendor/tool-specific `anyAttribute` attributes in the schema, none of which are modeled.
#[derive(Debug, PartialEq, Eq, Clone, Default)]
pub struct SerialWire {
}

/// Represents a [PDSC traceport](https://open-cmsis-pack.github.io/Open-CMSIS-Pack-Spec/main/html/pdsc_family_pg.html#element_traceport) element
#[derive(Debug, PartialEq, Eq, Clone, Default)]
pub struct TracePort {
    /// Width of the parallel trace port in bits
    pub width: Option<u32>,
}

/// Represents a [PDSC tracebuffer](https://open-cmsis-pack.github.io/Open-CMSIS-Pack-Spec/main/html/pdsc_family_pg.html#element_tracebuffer) element
#[derive(Debug, PartialEq, Eq, Clone, Default)]
pub struct TraceBuffer {
    /// Start address of the trace buffer (hex string)
    pub start: Option<String>,
    /// Size of the trace buffer in bytes (hex string)
    pub size: Option<String>,
}

/// Represents a [PDSC book](https://open-cmsis-pack.github.io/Open-CMSIS-Pack-Spec/main/html/pdsc_family_pg.html#element_book) element
#[derive(Debug, PartialEq, Eq, Clone, Default)]
pub struct Book {
    /// Path or URL to the document
    pub name: String,
    /// Human-readable document title
    pub title: String,
    /// Processor instance name this book applies to
    pub pname: Option<String>,
    /// If `true`, this document is public
    pub public: Option<bool>,
}

/// Represents a [PDSC feature](https://open-cmsis-pack.github.io/Open-CMSIS-Pack-Spec/main/html/pdsc_family_pg.html#element_feature) element;
/// valid `feature_type` values: [DeviceFeatureEnum](https://open-cmsis-pack.github.io/Open-CMSIS-Pack-Spec/main/html/packFormat.html)
#[derive(Debug, PartialEq, Eq, Clone, Default)]
pub struct Feature {
    /// Feature type identifier
    pub feature_type: String,
    /// Primary parameter — numeric for most types, label string for `Application`
    pub n: Option<String>,
    /// Secondary parameter — numeric for most types, label string for `Application`
    pub m: Option<String>,
    /// Human-readable feature name
    pub name: Option<String>,
    /// Processor instance name this feature applies to
    pub pname: Option<String>,
    /// Deprecated; count of identical features (only for backwards compatibility)
    pub count: Option<i32>,
}

/// Represents an [environment](https://open-cmsis-pack.github.io/Open-CMSIS-Pack-Spec/main/html/pdsc_family_pg.html#element_environment) entry within a family
#[derive(Debug, PartialEq, Eq, Clone, Default)]
pub struct FamilyEnvironment {
    /// Tool environment identifier
    pub name: String,
    /// Processor instance name
    pub pname: Option<String>,
}

/// Represents a [PDSC variant](https://open-cmsis-pack.github.io/Open-CMSIS-Pack-Spec/main/html/pdsc_family_pg.html#element_variant) element
///
/// Defines a named variant of a device, overriding or extending the parent device's properties.
#[derive(Debug, PartialEq, Eq, Clone, Default)]
pub struct Variant {
    /// Variant name
    pub variant_name: String,
    /// Date this variant was deprecated (`xs:date`, e.g. `2020-01-01`)
    pub deprecated: Option<String>,
    /// Brief variant description (0..*)
    pub description: Vec<String>,
    /// Processor definitions (0..*)
    pub processor: Vec<Processor>,
    /// Compile-time definitions (0..*)
    pub compile: Vec<Compile>,
    /// Debug unit assignments (0..*)
    pub debug: Vec<FamilyDebug>,
    /// Debug configuration (0..1)
    pub debugconfig: Option<DebugConfig>,
    /// Debug port definitions (0..*)
    pub debugport: Vec<DebugPort>,
    /// Access port v1 definitions (0..*)
    pub access_port_v1: Vec<AccessPortV1>,
    /// Access port v2 definitions (0..*)
    pub access_port_v2: Vec<AccessPortV2>,
    /// Flash programming algorithms (0..*)
    pub algorithm: Vec<Algorithm>,
    /// Raw `<flashinfo>` nodes; see [`FlashInfo`]'s `TryFrom<Node>` impl for why these are deferred.
    pub flashinfo_raw: Vec<XmlNode>,

    /// Flash information (0..*), populated from [`Self::flashinfo_raw`] by [`parse_flashinfo`]
    pub flashinfo: Vec<FlashInfo>,
    /// Memory regions (0..*)
    pub memory: Vec<Memory>,
    /// Trace unit definitions (0..*)
    pub trace: Vec<Trace>,
    /// Reference documentation (0..*)
    pub book: Vec<Book>,
    /// Feature descriptors (0..*)
    pub feature: Vec<Feature>,
    /// Tool environment entries (0..*)
    pub environment: Vec<FamilyEnvironment>,
    /// Variant-level debug variables (rare; most packs define these at family level)
    pub debugvars: Debugvars,
    /// Variant-level debug sequences (rare; most packs define these at family level)
    pub sequences: Sequences,
}

/// Represents a [PDSC device](https://open-cmsis-pack.github.io/Open-CMSIS-Pack-Spec/main/html/pdsc_family_pg.html#element_device) element
#[derive(Debug, PartialEq, Eq, Clone, Default)]
pub struct Device {
    /// Device name
    pub device_name: String,
    /// Date this device was deprecated (`xs:date`, e.g. `2020-01-01`)
    pub deprecated: Option<String>,
    /// Brief device description (0..*)
    pub description: Vec<String>,
    /// Processor definitions (0..*)
    pub processor: Vec<Processor>,
    /// Compile-time definitions (0..*)
    pub compile: Vec<Compile>,
    /// Debug unit assignments (0..*)
    pub debug: Vec<FamilyDebug>,
    /// Debug configuration (0..1)
    pub debugconfig: Option<DebugConfig>,
    /// Debug port definitions (0..*)
    pub debugport: Vec<DebugPort>,
    /// Access port v1 definitions (0..*)
    pub access_port_v1: Vec<AccessPortV1>,
    /// Access port v2 definitions (0..*)
    pub access_port_v2: Vec<AccessPortV2>,
    /// Flash programming algorithms (0..*)
    pub algorithm: Vec<Algorithm>,
    /// Raw `<flashinfo>` nodes; see [`FlashInfo`]'s `TryFrom<Node>` impl for why these are deferred.
    pub flashinfo_raw: Vec<XmlNode>,

    /// Flash information (0..*), populated from [`Self::flashinfo_raw`] by [`parse_flashinfo`]
    pub flashinfo: Vec<FlashInfo>,
    /// Memory regions (0..*)
    pub memory: Vec<Memory>,
    /// Trace unit definitions (0..*)
    pub trace: Vec<Trace>,
    /// Reference documentation (0..*)
    pub book: Vec<Book>,
    /// Feature descriptors (0..*)
    pub feature: Vec<Feature>,
    /// Tool environment entries (0..*)
    pub environment: Vec<FamilyEnvironment>,
    /// Device-level debug variables (rare; most packs define these at family level)
    pub debugvars: Debugvars,
    /// Device-level debug sequences (rare; most packs define these at family level)
    pub sequences: Sequences,
    /// Device variants (0..*)
    pub variants: Vec<Variant>,
}

/// Represents a [PDSC subFamily](https://open-cmsis-pack.github.io/Open-CMSIS-Pack-Spec/main/html/pdsc_family_pg.html#element_subFamily) element
#[derive(Debug, PartialEq, Eq, Clone, Default)]
pub struct SubFamily {
    /// Sub-family name
    pub sub_family_name: String,
    /// Date this sub-family was deprecated (`xs:date`, e.g. `2020-01-01`)
    pub deprecated: Option<String>,
    /// Brief sub-family description (0..*)
    pub description: Vec<String>,
    /// Processor definitions (0..*)
    pub processor: Vec<Processor>,
    /// Compile-time definitions (0..*)
    pub compile: Vec<Compile>,
    /// Debug unit assignments (0..*)
    pub debug: Vec<FamilyDebug>,
    /// Debug configuration (0..1)
    pub debugconfig: Option<DebugConfig>,
    /// Debug port definitions (0..*)
    pub debugport: Vec<DebugPort>,
    /// Access port v1 definitions (0..*)
    pub access_port_v1: Vec<AccessPortV1>,
    /// Access port v2 definitions (0..*)
    pub access_port_v2: Vec<AccessPortV2>,
    /// Flash programming algorithms (0..*)
    pub algorithm: Vec<Algorithm>,
    /// Raw `<flashinfo>` nodes; see [`FlashInfo`]'s `TryFrom<Node>` impl for why these are deferred.
    pub flashinfo_raw: Vec<XmlNode>,

    /// Flash information (0..*), populated from [`Self::flashinfo_raw`] by [`parse_flashinfo`]
    pub flashinfo: Vec<FlashInfo>,
    /// Memory regions (0..*)
    pub memory: Vec<Memory>,
    /// Trace unit definitions (0..*)
    pub trace: Vec<Trace>,
    /// Reference documentation (0..*)
    pub book: Vec<Book>,
    /// Feature descriptors (0..*)
    pub feature: Vec<Feature>,
    /// Tool environment entries (0..*)
    pub environment: Vec<FamilyEnvironment>,
    /// Sub-family-level debug variables
    pub debugvars: Debugvars,
    /// Sub-family-level debug sequences
    pub sequences: Sequences,
    /// Devices within this sub-family (0..*)
    pub devices: Vec<Device>,
}

// ---------------------------------------------------------------------------
// What the element readers keep of an element's attributes.

/// A sequence read from a `<sequence>` element carries the element's
/// attributes: its `name`, `Pname` and `info` as they are written, and its
/// `disable` attribute as a `bool`: `Some(true)` exactly when the attribute
/// is `true`, `Some(false)` exactly when it is `false`.
pub proof fn lemma_sequence_attributes(node: XmlNode)
    ensures
        sequence_from_node(node) matches Ok(s) ==> {
            &&& attribute_value(node.attributes@, "name"@) == Some(s.name)
            &&& s.processor_name == attribute_value(node.attributes@, "Pname"@)
            &&& s.info == attribute_value(node.attributes@, "info"@)
            &&& (s.disable == Some(true) <==> attribute_value(node.attributes@, "disable"@) == Some(
                "true"@,
            ))
            &&& (s.disable == Some(false) <==> attribute_value(node.attributes@, "disable"@)
                == Some("false"@))
        },
{
    reveal_strlit("true");
    reveal_strlit("false");
    assert("true"@.len() == 4 && "false"@.len() == 5);
}

/// A block read from a `<block>` element carries the element's `info`
/// attribute as it is written and its text as its content, and its `atomic`
/// attribute as a `bool`: `Some(true)` exactly when the attribute, trimmed,
/// is `true`, `Some(false)` exactly when it is `false`.
pub proof fn lemma_block_attributes(node: XmlNode)
    ensures
        block_from_node(node) matches Ok(b) ==> {
            &&& b.info == attribute_value(node.attributes@, "info"@)
            &&& b.content == node_text(node)
            &&& (b.atomic == Some(true) <==> (attribute_value(node.attributes@, "atomic"@) matches Some(
                v,
            ) && trim(v) == "true"@))
            &&& (b.atomic == Some(false) <==> (attribute_value(node.attributes@, "atomic"@) matches Some(
                v,
            ) && trim(v) == "false"@))
        },
{
    reveal_strlit("true");
    reveal_strlit("false");
    assert("true"@.len() == 4 && "false"@.len() == 5);
}

/// A control read from a `<control>` element carries the element's `if`,
/// `while` and `info` attributes as they are written, and its condition is
/// what its `if` attribute, or where it has none its `while` attribute,
/// parses to.
pub proof fn lemma_control_attributes(node: XmlNode)
    ensures
        control_from_node(node) matches Ok(c) ==> {
            &&& c.conditional_if == attribute_value(node.attributes@, "if"@)
            &&& c.conditional_while == attribute_value(node.attributes@, "while"@)
            &&& c.info == attribute_value(node.attributes@, "info"@)
            &&& c.conditional matches Some(m) && parse_expression(
                match attribute_value(node.attributes@, "if"@) {
                    Some(t) => t,
                    None => attribute_value(node.attributes@, "while"@)->0,
                },
            ) == Ok::<ExpressionModel, DebugErrorModel>(m)
        },
{
}

/// Flash information read from a `<flashinfo>` element carries the
/// element's attributes: `name`, `start` and `pagesize` (which it must have),
/// and `blankval`, `filler` and `Pname` as they are written, each by its own
/// name; `ptime` and `etime` are present exactly when the attributes are,
/// with the values they read as.
pub proof fn lemma_flash_info_attributes(node: XmlNode)
    ensures
        flash_info_from_node(node) matches Ok(f) ==> {
            &&& attribute_value(node.attributes@, "name"@) == Some(f.name)
            &&& attribute_value(node.attributes@, "start"@) == Some(f.start)
            &&& attribute_value(node.attributes@, "pagesize"@) == Some(f.pagesize)
            &&& f.blankval == attribute_value(node.attributes@, "blankval"@)
            &&& f.filler == attribute_value(node.attributes@, "filler"@)
            &&& f.pname == attribute_value(node.attributes@, "Pname"@)
            &&& (f.ptime is Some <==> attribute_value(node.attributes@, "ptime"@) is Some)
            &&& (f.etime is Some <==> attribute_value(node.attributes@, "etime"@) is Some)
            &&& (attribute_value(node.attributes@, "ptime"@) matches Some(v) ==> attribute_unsigned(
                v,
                u32_max(),
            ) == Some(f.ptime->0 as nat))
            &&& (attribute_value(node.attributes@, "etime"@) matches Some(v) ==> attribute_unsigned(
                v,
                u32_max(),
            ) == Some(f.etime->0 as nat))
        },
{
    reveal_strlit("ptime");
    reveal_strlit("etime");
    if invalid_time_attribute(node.attributes@) is None {
        lemma_time_reads(node.attributes@, "ptime"@);
        lemma_time_reads(node.attributes@, "etime"@);
    }
}

/// A child of `<flashinfo>` read as a block carries the element's `size` and
/// `arg` attributes as they are written and its `count` attribute as it
/// reads; read as a gap, it carries its `size` attribute.
pub proof fn lemma_flash_element_attributes(node: XmlNode)
    ensures
        flash_element_from_node(node) matches Ok(FlashElementModel::Block(count, size, arg)) ==> {
            &&& attribute_value(node.attributes@, "size"@) == Some(size)
            &&& arg == attribute_value(node.attributes@, "arg"@)
            &&& attribute_value(node.attributes@, "count"@) matches Some(v) && uint_value(v) == Some(
                count as nat,
            )
        },
        flash_element_from_node(node) matches Ok(FlashElementModel::Gap(size)) ==> attribute_value(
            node.attributes@,
            "size"@,
        ) == Some(size),
{
}

// ---------------------------------------------------------------------------
// A comment ends at the end of its line.

/// Where `s[start..]` holds no `c`, it is one piece.
proof fn lemma_split_rest(s: Seq<char>, c: char, start: int)
    requires
        0 <= start <= s.len(),
        forall|j: int| start <= j < s.len() ==> s[j] != c,
    ensures
        split_from(s, c, start) == seq![s.subrange(start, s.len() as int)],
{
    lemma_find_from(s, c, start);
}

/// Where the first `c` at or after `start` is at `i`, the first piece ends
/// there.
proof fn lemma_split_first(s: Seq<char>, c: char, start: int, i: int)
    requires
        0 <= start <= i < s.len(),
        s[i] == c,
        forall|j: int| start <= j < i ==> s[j] != c,
    ensures
        split_from(s, c, start) == seq![s.subrange(start, i)] + split_from(s, c, i + 1),
{
    lemma_find_from(s, c, start);
}

/// Text that holds neither a newline nor a `;`.
pub open spec fn is_line_part(s: Seq<char>) -> bool {
    forall|i: int| 0 <= i < s.len() ==> s[i] != '\n' && s[i] != ';'
}

/// The first character of text that starts with `__var`.
proof fn lemma_var_first(d: Seq<char>)
    requires
        starts_with(d, "__var"@),
    ensures
        d.len() >= 5,
        d[0] == '_',
        !is_ws(d[0]),
        !starts_with(d, "//"@),
{
    reveal_strlit("__var");
    reveal_strlit("//");
    assert("__var"@.len() == 5 && "__var"@[0] == '_');
    assert(d[0] == d.subrange(0, 5)[0]);
    assert("//"@ =~= seq!['/', '/']);
    if d.len() >= 2 {
        assert(d.subrange(0, 2)[0] == d[0]);
    }
}

/// The lines of `d1; //c` and `d2;`, with neither a comment line: kept
/// whole, each followed by a newline.
#[verifier::rlimit(30)]
proof fn lemma_two_lines_kept(d1: Seq<char>, c: Seq<char>, d2: Seq<char>)
    requires
        starts_with(d1, "__var"@),
        starts_with(d2, "__var"@),
        is_line_part(d1),
        is_line_part(c),
        is_line_part(d2),
    ensures
        uncommented(split_on(d1 + seq![';', ' ', '/', '/'] + c + seq!['\n'] + d2 + seq![';'], '\n'))
            == d1 + seq![';', ' ', '/', '/'] + c + seq!['\n'] + d2 + seq![';'] + seq!['\n'],
{
    reveal_strlit("//");
    assert("//"@ =~= seq!['/', '/']);
    lemma_var_first(d1);
    lemma_var_first(d2);
    let nl = seq!['\n'];
    let l1 = d1 + seq![';', ' ', '/', '/'] + c;
    let l2 = d2 + seq![';'];
    let content = d1 + seq![';', ' ', '/', '/'] + c + nl + d2 + seq![';'];
    assert(content =~= l1 + nl + l2);
    let p1 = l1.len() as int;
    assert forall|j: int| 0 <= j < p1 implies content[j] != '\n' by {
        if j < d1.len() {
            assert(content[j] == d1[j]);
        } else if j >= d1.len() + 4 {
            assert(content[j] == c[j - d1.len() - 4]);
        }
    }
    assert forall|j: int| p1 + 1 <= j < content.len() implies content[j] != '\n' by {
        if j < p1 + 1 + d2.len() {
            assert(content[j] == d2[j - p1 - 1]);
        }
    }
    lemma_split_first(content, '\n', 0, p1);
    lemma_split_rest(content, '\n', p1 + 1);
    assert(content.subrange(0, p1) =~= l1);
    assert(content.subrange(p1 + 1, content.len() as int) =~= l2);
    let lines = split_on(content, '\n');
    assert(lines =~= seq![l1, l2]);
    // Neither line is a comment line.
    assert(trim_start(l1) == l1) by {
        assert(l1[0] == d1[0]);
    }
    assert(trim(l1).len() > 0 && trim(l1)[0] == '_') by {
        lemma_trim_end_keeps_first(l1);
        assert(l1[0] == d1[0]);
    }
    assert(trim_start(l2) == l2) by {
        assert(l2[0] == d2[0]);
    }
    assert(trim(l2).len() > 0 && trim(l2)[0] == '_') by {
        lemma_trim_end_keeps_first(l2);
        assert(l2[0] == d2[0]);
    }
    assert(trim(l1).subrange(0, 2)[0] == '_' || trim(l1).len() < 2);
    assert(trim(l2).subrange(0, 2)[0] == '_' || trim(l2).len() < 2);
    assert(!starts_with(trim(l1), "//"@));
    assert(!starts_with(trim(l2), "//"@));
    let one = seq![l1];
    assert(lines.drop_last() =~= one);
    assert(lines.last() == l2);
    assert(one.drop_last() =~= Seq::<Seq<char>>::empty());
    assert(one.last() == l1);
    assert(uncommented(Seq::<Seq<char>>::empty()) == Seq::<char>::empty());
    assert(uncommented(one) =~= l1.push('\n'));
    assert(uncommented(lines) =~= l1 + nl + l2 + nl);
}

/// The text `d1; //c` newline `d2;` newline cuts at its `;`s into `d1`, the
/// comment with `d2` on its next line, and the final newline.
#[verifier::rlimit(30)]
proof fn lemma_three_segments(d1: Seq<char>, c: Seq<char>, d2: Seq<char>)
    requires
        is_line_part(d1),
        is_line_part(c),
        is_line_part(d2),
    ensures
        split_on(d1 + seq![';', ' ', '/', '/'] + c + seq!['\n'] + d2 + seq![';'] + seq!['\n'], ';')
            == seq![d1, seq![' ', '/', '/'] + c + seq!['\n'] + d2, seq!['\n']],
{
    let nl = seq!['\n'];
    let text = d1 + seq![';', ' ', '/', '/'] + c + nl + d2 + seq![';'] + nl;
    let q1 = d1.len() as int;
    let p1 = q1 + 4 + c.len();
    let q2 = p1 + 1 + d2.len() as int;
    assert(text[q1] == ';');
    assert(text[q2] == ';');
    assert forall|j: int| 0 <= j < q1 implies text[j] != ';' by {
        assert(text[j] == d1[j]);
    }
    assert forall|j: int| q1 + 1 <= j < q2 implies text[j] != ';' by {
        if q1 + 4 <= j < p1 {
            assert(text[j] == c[j - q1 - 4]);
        } else if p1 + 1 <= j {
            assert(text[j] == d2[j - p1 - 1]);
        }
    }
    assert(text.len() == q2 + 2);
    lemma_split_first(text, ';', 0, q1);
    lemma_split_first(text, ';', q1 + 1, q2);
    lemma_split_rest(text, ';', q2 + 1);
    assert(text.subrange(0, q1) =~= d1);
    assert(text.subrange(q1 + 1, q2) =~= seq![' ', '/', '/'] + c + nl + d2);
    assert(text.subrange(q2 + 1, text.len() as int) =~= nl);
}

/// A declaration segment that starts with a comment reads as the
/// declaration on its next line.
#[verifier::rlimit(30)]
proof fn lemma_comment_segment(c: Seq<char>, d2: Seq<char>)
    requires
        starts_with(d2, "__var"@),
        !is_ws(d2.last()),
        is_line_part(c),
        is_line_part(d2),
    ensures
        debugvar_declaration(seq![' ', '/', '/'] + c + seq!['\n'] + d2) == debugvar_declaration(d2),
{
    reveal_strlit("//");
    assert("//"@ =~= seq!['/', '/']);
    lemma_var_first(d2);
    let nl = seq!['\n'];
    let seg2 = seq![' ', '/', '/'] + c + nl + d2;
    let rest = seq!['/', '/'] + c + nl + d2;
    assert(seg2.drop_first() =~= rest);
    assert(trim_start(rest) == rest);
    assert(trim_start(seg2) == rest);
    assert(rest.subrange(0, 2) =~= seq!['/', '/']);
    assert(starts_with(trim_start(seg2), "//"@));
    let k = 3 + c.len() as int;
    assert(seg2[k] == '\n');
    assert forall|j: int| 0 <= j < k implies seg2[j] != '\n' by {
        if j >= 3 {
            assert(seg2[j] == c[j - 3]);
        }
    }
    assert forall|j: int| k + 1 <= j < seg2.len() implies seg2[j] != '\n' by {
        assert(seg2[j] == d2[j - k - 1]);
    }
    lemma_split_first(seg2, '\n', 0, k);
    lemma_split_rest(seg2, '\n', k + 1);
    assert(seg2.subrange(k + 1, seg2.len() as int) =~= d2);
    assert(split_on(seg2, '\n').len() == 2);
    assert(split_on(seg2, '\n')[1] == d2);
    lemma_trim_both_ends(d2);
    assert(trim_start(d2) == d2);
}

/// A declaration `d1;` followed by a comment `//c` on its line does not
/// hide the declaration `d2;` on the next line: both are read, each as it
/// reads on its own, the later one winning where they name the same
/// variable.
pub proof fn lemma_comment_ends_at_line_end(d1: Seq<char>, c: Seq<char>, d2: Seq<char>)
    requires
        starts_with(d1, "__var"@),
        starts_with(d2, "__var"@),
        d2.len() > 0 && !is_ws(d2.last()),
        is_line_part(d1),
        is_line_part(c),
        is_line_part(d2),
        debugvar_declaration(d1) is Ok,
        debugvar_declaration(d2) is Ok,
    ensures
        match (debugvar_declaration(d1), debugvar_declaration(d2)) {
            (Ok((n1, x1)), Ok((n2, x2))) => debugvars_of(d1 + "; //"@ + c + "\n"@ + d2 + ";"@)
                == Map::<Seq<char>, u64>::empty().insert(n1, x1).insert(n2, x2),
            _ => true,
        },
{
    reveal_strlit("; //");
    reveal_strlit("\n");
    reveal_strlit(";");
    let nl = seq!['\n'];
    let content = d1 + "; //"@ + c + "\n"@ + d2 + ";"@;
    assert(content =~= d1 + seq![';', ' ', '/', '/'] + c + nl + d2 + seq![';']);
    lemma_two_lines_kept(d1, c, d2);
    lemma_three_segments(d1, c, d2);
    let seg2 = seq![' ', '/', '/'] + c + nl + d2;
    let segs = debugvar_segments(content);
    assert(segs == seq![d1, seg2, nl]);
    lemma_comment_segment(c, d2);
    // The newline at the end reads as nothing.
    assert(is_ws('\n'));
    let empty = Seq::<char>::empty();
    assert(nl[0] == '\n');
    assert(nl.drop_first() =~= empty);
    assert(trim_start(empty) == empty);
    assert(trim_start(nl) == empty);
    assert(trim_end(empty) == empty);
    assert(trim(nl) == empty);
    reveal_strlit("//");
    assert("//"@.len() == 2);
    assert(!starts_with(empty, "//"@));
    assert(debugvar_declaration(nl) is Err);
    let two = seq![d1, seg2];
    let one = seq![d1];
    assert(segs.drop_last() =~= two);
    assert(segs.last() == nl);
    assert(two.drop_last() =~= one);
    assert(two.last() == seg2);
    assert(one.drop_last() =~= Seq::<Seq<char>>::empty());
    assert(one.last() == d1);
    assert(debugvar_map(segs) == debugvar_map(two));
    match (debugvar_declaration(d1), debugvar_declaration(d2)) {
        (Ok((n1, x1)), Ok((n2, x2))) => {
            assert(debugvar_map(Seq::<Seq<char>>::empty()) == Map::<Seq<char>, u64>::empty());
            assert(debugvar_map(one) =~= Map::<Seq<char>, u64>::empty().insert(n1, x1));
            assert(debugvar_declaration(seg2) == Ok::<(Seq<char>, u64), FamilyErrorModel>((n2, x2)));
            assert(debugvar_map(two) == debugvar_map(one).insert(n2, x2));
        },
        _ => {},
    }
}

/// Text whose first character is no whitespace keeps it when trailing
/// whitespace is dropped.
proof fn lemma_trim_end_keeps_first(s: Seq<char>)
    requires
        s.len() > 0,
        !is_ws(s[0]),
    ensures
        trim_end(s).len() > 0,
        trim_end(s)[0] == s[0],
    decreases s.len(),
{
    if s.len() > 1 && is_ws(s.last()) {
        assert(s.drop_last()[0] == s[0]);
        lemma_trim_end_keeps_first(s.drop_last());
    }
}

/// Text with no whitespace at either end is its own trim.
proof fn lemma_trim_both_ends(s: Seq<char>)
    requires
        s.len() > 0,
        !is_ws(s[0]),
        !is_ws(s.last()),
    ensures
        trim(s) == s,
{
    assert(trim_start(s) == s);
    assert(trim_end(s) == s);
}

// ---------------------------------------------------------------------------
// A declaration reads as its name and its value.

/// Text with no whitespace at either end, between two spaces, trims to
/// itself.
proof fn lemma_trim_spaced(x: Seq<char>)
    requires
        x.len() > 0,
        !is_ws(x[0]),
        !is_ws(x.last()),
    ensures
        trim(seq![' '] + x + seq![' ']) == x,
        trim(seq![' '] + x) == x,
{
    let a = seq![' '] + x + seq![' '];
    let b = x + seq![' '];
    assert(is_ws(' '));
    assert(a.drop_first() =~= b);
    assert(b[0] == x[0]);
    assert(trim_start(b) == b);
    assert(trim_start(a) == b);
    assert(b.drop_last() =~= x);
    assert(trim_end(x) == x);
    assert(trim_end(b) == x);
    let c = seq![' '] + x;
    assert(c.drop_first() =~= x);
    assert(trim_start(x) == x);
    assert(trim_start(c) == x);
}

/// `__var n = w` reads as the declaration of the variable `n` with the value
/// that `w` reads as, also with a `;` after it, where the name `n` and the
/// value text `w` hold no `=` and no whitespace at either end; a value that
/// does not read is the error.
pub proof fn lemma_declaration_reads_parts(n: Seq<char>, w: Seq<char>)
    requires
        n.len() > 0,
        !is_ws(n[0]),
        !is_ws(n.last()),
        forall|i: int| 0 <= i < n.len() ==> n[i] != '=',
        w.len() > 0,
        !is_ws(w[0]),
        !is_ws(w.last()),
        w.last() != ';',
        forall|i: int| 0 <= i < w.len() ==> w[i] != '=',
    ensures
        debugvar_declaration("__var "@ + n + " = "@ + w) == (match debugvar_value(w) {
            Some(x) => Ok((n, x)),
            None => Err(FamilyErrorModel::MalformedDebugvar("could not parse value as u64: "@ + quoted(w))),
        }),
        debugvar_declaration("__var "@ + n + " = "@ + w + ";"@) == debugvar_declaration(
            "__var "@ + n + " = "@ + w,
        ),
{
    lemma_declaration_text(n, w, seq![]);
    lemma_declaration_text(n, w, seq![';']);
    reveal_strlit(";");
    assert(";"@ =~= seq![';']);
    assert("__var "@ + n + " = "@ + w + seq![] =~= "__var "@ + n + " = "@ + w);
}

/// How `__var n = w` followed by `tail` (nothing, or one `;`) reads.
proof fn lemma_declaration_text(n: Seq<char>, w: Seq<char>, tail: Seq<char>)
    requires
        n.len() > 0,
        !is_ws(n[0]),
        !is_ws(n.last()),
        forall|i: int| 0 <= i < n.len() ==> n[i] != '=',
        w.len() > 0,
        !is_ws(w[0]),
        !is_ws(w.last()),
        w.last() != ';',
        forall|i: int| 0 <= i < w.len() ==> w[i] != '=',
        tail == Seq::<char>::empty() || tail == seq![';'],
    ensures
        debugvar_declaration("__var "@ + n + " = "@ + w + tail) == (match debugvar_value(w) {
            Some(x) => Ok((n, x)),
            None => Err(FamilyErrorModel::MalformedDebugvar("could not parse value as u64: "@ + quoted(w))),
        }),
{
    reveal_strlit("__var ");
    reveal_strlit("__var");
    reveal_strlit(" = ");
    reveal_strlit("//");
    let pre = seq!['_', '_', 'v', 'a', 'r', ' '];
    assert("__var "@ =~= pre);
    assert("__var"@ =~= seq!['_', '_', 'v', 'a', 'r']);
    assert(" = "@ =~= seq![' ', '=', ' ']);
    assert("//"@ =~= seq!['/', '/']);
    let d = pre + n + seq![' ', '=', ' '] + w + tail;
    assert("__var "@ + n + " = "@ + w + tail =~= d);
    // Not a comment, already trimmed.
    assert(d[0] == '_');
    assert(trim_start(d) == d);
    assert(d.subrange(0, 2)[0] == '_');
    assert(!starts_with(trim_start(d), "//"@));
    assert(d.last() == w.last() || d.last() == ';');
    assert(trim_end(d) == d);
    assert(trim(d) == d);
    assert(d.len() > 0);
    assert(d.subrange(0, 5) =~= seq!['_', '_', 'v', 'a', 'r']);
    assert(starts_with(d, "__var"@));
    // The rest cuts at its one `=` into the name and the value.
    let rest = d.subrange(5, d.len() as int);
    let left = seq![' '] + n + seq![' '];
    let right = seq![' '] + w + tail;
    assert(rest =~= left + seq!['='] + right);
    let k = left.len() as int;
    assert(rest[k] == '=');
    assert forall|j: int| 0 <= j < k implies rest[j] != '=' by {
        if 1 <= j < k - 1 {
            assert(rest[j] == n[j - 1]);
        }
    }
    assert forall|j: int| k + 1 <= j < rest.len() implies rest[j] != '=' by {
        if k + 2 <= j < k + 2 + w.len() {
            assert(rest[j] == w[j - k - 2]);
        }
    }
    lemma_split_first(rest, '=', 0, k);
    lemma_split_rest(rest, '=', k + 1);
    assert(rest.subrange(0, k) =~= left);
    assert(rest.subrange(k + 1, rest.len() as int) =~= right);
    let parts = split_on(rest, '=');
    assert(parts =~= seq![left, right]);
    lemma_trim_spaced(n);
    assert(trim(parts[0]) == n);
    // The value, without its `;`.
    if tail.len() == 0 {
        assert(right =~= seq![' '] + w);
        lemma_trim_spaced(w);
        assert(trim(right) == w);
        assert(without_semicolon(w) == w);
    } else {
        let wt = w + seq![';'];
        assert(right =~= seq![' '] + wt);
        assert(wt.drop_first() =~= w.drop_first() + seq![';']);
        assert(wt[0] == w[0]);
        assert(wt.last() == ';');
        lemma_trim_both_ends(wt);
        assert(right.drop_first() =~= wt);
        assert(trim_start(right) == trim_start(wt));
        assert(trim(right) == wt);
        assert(wt.drop_last() =~= w);
        lemma_trim_both_ends(w);
        assert(without_semicolon(wt) == w);
    }
    assert(without_semicolon(trim(parts[1])) == w);
}

// ---------------------------------------------------------------------------
// Numbers written in decimal read back.

/// Decimal text is not taken for hexadecimal: it does not start with `0x`
/// or `0X`, and it has no whitespace.
proof fn lemma_decimal_shape(n: nat)
    ensures
        !starts_with(decimal(n), "0x"@),
        !starts_with(decimal(n), "0X"@),
        trim(decimal(n)) == decimal(n),
{
    reveal_strlit("0x");
    reveal_strlit("0X");
    lemma_decimal_reads_back(n, n);
    let t = decimal(n);
    assert(0x30 <= t[0] as u32 <= 0x39);
    assert(0x30 <= t.last() as u32 <= 0x39);
    lemma_trim_both_ends(t);
    assert("0x"@ =~= seq!['0', 'x']);
    assert("0X"@ =~= seq!['0', 'X']);
    if t.len() >= 2 {
        assert(0x30 <= t[1] as u32 <= 0x39);
        assert(t.subrange(0, 2)[1] == t[1]);
    }
}

/// A debug variable's value written in decimal reads as that value.
pub proof fn lemma_debugvar_decimal_value(x: u64)
    ensures
        debugvar_value(decimal(x as nat)) == Some(x),
{
    lemma_decimal_shape(x as nat);
    lemma_decimal_reads_back(x as nat, u64_max());
}

/// A sector count written in decimal reads as that count.
pub proof fn lemma_count_decimal_value(x: u32)
    ensures
        uint_value(decimal(x as nat)) == Some(x as nat),
{
    lemma_decimal_shape(x as nat);
    lemma_decimal_reads_back(x as nat, u32_max());
}

/// Appending a hexadecimal digit to a debug variable's value written after
/// `0x` multiplies what it reads as by 16 and adds the digit, where the
/// result fits.
pub proof fn lemma_debugvar_hex_digit(s: Seq<char>, c: char, v: u64)
    requires
        debugvar_value("0x"@ + s) == Some(v),
        digit_of(c) < 16,
        v * 16 + digit_of(c) <= u64_max(),
    ensures
        debugvar_value("0x"@ + s.push(c)) == Some((v * 16 + digit_of(c)) as u64),
{
    reveal_strlit("0x");
    let pre = seq!['0', 'x'];
    assert("0x"@ =~= pre);
    let a = pre + s;
    let b = pre + s.push(c);
    assert(a.subrange(0, 2) =~= pre);
    assert(b.subrange(0, 2) =~= pre);
    assert(a.subrange(2, a.len() as int) =~= s);
    assert(b.subrange(2, b.len() as int) =~= s.push(c));
    // `0x s` does not read in decimal, for `x` is no decimal digit: what it
    // reads as comes from its hexadecimal digits.
    assert(digit_of('x') >= 10);
    assert(a[0] == '0' && a[1] == 'x');
    assert(parse_unsigned(a, 10, u64_max()) is None) by {
        assert(!all_digits(a, 10));
    }
    assert(parse_unsigned(s, 16, u64_max()) == Some(v as nat));
    lemma_digit_appended(s, c, 16, u64_max());
}

/// Appending a hexadecimal digit to a sector count written after `0x`
/// multiplies what it reads as by 16 and adds the digit, where the result
/// fits.
pub proof fn lemma_count_hex_digit(s: Seq<char>, c: char, v: nat)
    requires
        s.len() > 0,
        !is_ws(s.last()),
        uint_value("0x"@ + s) == Some(v),
        !is_ws(c),
        digit_of(c) < 16,
        v * 16 + digit_of(c) <= u32_max(),
    ensures
        uint_value("0x"@ + s.push(c)) == Some(v * 16 + digit_of(c)),
{
    reveal_strlit("0x");
    let pre = seq!['0', 'x'];
    assert("0x"@ =~= pre);
    let a = pre + s;
    let b = pre + s.push(c);
    assert(a[0] == '0' && b[0] == '0');
    assert(a.last() == s.last() && b.last() == c);
    lemma_trim_both_ends(a);
    lemma_trim_both_ends(b);
    assert(a.subrange(0, 2) =~= pre);
    assert(b.subrange(0, 2) =~= pre);
    assert(a.subrange(2, a.len() as int) =~= s);
    assert(b.subrange(2, b.len() as int) =~= s.push(c));
    assert(parse_unsigned(s, 16, u32_max()) == Some(v));
    lemma_digit_appended(s, c, 16, u32_max());
}

// ---------------------------------------------------------------------------
// Lists read item by item, in order.

/// The sequences read from `<sequence>` elements are, one for one and in
/// order, what each element reads as; the list fails exactly when one of
/// the elements does not read.
pub proof fn lemma_sequences_one_for_one(nodes: Seq<XmlNode>)
    ensures
        sequences_from_nodes(nodes) matches Ok(ms) ==> ms.len() == nodes.len() && forall|i: int|
            0 <= i < nodes.len() ==> #[trigger] sequence_from_node(nodes[i]) == Ok::<SequenceModel, ErrorModel>(ms[i]),
        sequences_from_nodes(nodes) is Err <==> exists|i: int|
            0 <= i < nodes.len() && #[trigger] sequence_from_node(nodes[i]) is Err,
    decreases nodes.len(),
{
    if nodes.len() > 0 {
        let rest = nodes.drop_first();
        lemma_sequences_one_for_one(rest);
        assert forall|i: int| 0 < i < nodes.len() implies #[trigger] sequence_from_node(nodes[i]) == sequence_from_node(rest[i - 1]) by {
            assert(nodes[i] == rest[i - 1]);
        }
        if sequences_from_nodes(nodes) is Err && sequence_from_node(nodes[0]) is Ok {
            let j = choose|j: int| 0 <= j < rest.len() && #[trigger] sequence_from_node(rest[j]) is Err;
            assert(sequence_from_node(nodes[j + 1]) is Err);
        }
        if sequences_from_nodes(nodes) is Ok {
            assert forall|k: int| 0 <= k < nodes.len() implies #[trigger] sequence_from_node(nodes[k]) is Ok by {
                if k > 0 {
                    assert(nodes[k] == rest[k - 1]);
                }
            }
        }
    }
}

/// The flash information read from `<flashinfo>` elements is, one for one
/// and in order, what each element reads as; the list fails exactly when
/// one of the elements does not read.
pub proof fn lemma_flash_infos_one_for_one(nodes: Seq<XmlNode>)
    ensures
        flash_infos_from_nodes(nodes) matches Ok(ms) ==> ms.len() == nodes.len() && forall|i: int|
            0 <= i < nodes.len() ==> #[trigger] flash_info_from_node(nodes[i]) == Ok::<FlashInfoModel, ErrorModel>(ms[i]),
        flash_infos_from_nodes(nodes) is Err <==> exists|i: int|
            0 <= i < nodes.len() && #[trigger] flash_info_from_node(nodes[i]) is Err,
    decreases nodes.len(),
{
    if nodes.len() > 0 {
        let rest = nodes.drop_first();
        lemma_flash_infos_one_for_one(rest);
        assert forall|i: int| 0 < i < nodes.len() implies #[trigger] flash_info_from_node(nodes[i]) == flash_info_from_node(rest[i - 1]) by {
            assert(nodes[i] == rest[i - 1]);
        }
        if flash_infos_from_nodes(nodes) is Err && flash_info_from_node(nodes[0]) is Ok {
            let j = choose|j: int| 0 <= j < rest.len() && #[trigger] flash_info_from_node(rest[j]) is Err;
            assert(flash_info_from_node(nodes[j + 1]) is Err);
        }
        if flash_infos_from_nodes(nodes) is Ok {
            assert forall|k: int| 0 <= k < nodes.len() implies #[trigger] flash_info_from_node(nodes[k]) is Ok by {
                if k > 0 {
                    assert(nodes[k] == rest[k - 1]);
                }
            }
        }
    }
}

/// The statements of a block are, one for one and in order, what each of
/// its statement texts reads as; the block fails exactly when one of them
/// does not read.
#[verifier::rlimit(50)]
#[verifier::spinoff_prover]
pub proof fn lemma_statements_one_for_one(texts: Seq<Seq<char>>)
    ensures
        parse_statement_list(texts) matches Ok(ms) ==> ms.len() == texts.len() && forall|i: int|
            0 <= i < texts.len() ==> #[trigger] block_statement(texts[i]) == Ok::<StatementModel, DebugErrorModel>(ms[i]),
        parse_statement_list(texts) is Err <==> exists|i: int|
            0 <= i < texts.len() && #[trigger] block_statement(texts[i]) is Err,
    decreases texts.len(),
{
    if texts.len() > 0 {
        let rest = texts.drop_first();
        lemma_statements_one_for_one(rest);
        assert forall|i: int| 0 < i < texts.len() implies #[trigger] block_statement(texts[i]) == block_statement(rest[i - 1]) by {
            assert(texts[i] == rest[i - 1]);
        }
        if parse_statement_list(texts) is Err && block_statement(texts[0]) is Ok {
            let j = choose|j: int| 0 <= j < rest.len() && #[trigger] block_statement(rest[j]) is Err;
            assert(block_statement(texts[j + 1]) is Err);
        }
        if parse_statement_list(texts) is Ok {
            assert forall|k: int| 0 <= k < texts.len() implies #[trigger] block_statement(texts[k]) is Ok by {
                if k > 0 {
                    assert(texts[k] == rest[k - 1]);
                }
            }
        }
    }
}

} // verus!
