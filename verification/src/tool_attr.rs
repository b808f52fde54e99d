//! What the `tool` attribute decides about the function it marks: the
//! tool's name, its description from the function's doc comments, and
//! where its input schema comes from.
//!
//! The attribute works on the syntax tree of the function; here the parts
//! it reads are plain values: paths as their segments, doc attributes as
//! their string, parameters as their type's path.
use crate::text::{string_push, string_push_str};
use vstd::prelude::*;
use vstd::string::StrSliceExecFns;

verus! {

/// One segment of a path: its identifier, and whether it has generic or
/// parenthesized arguments.
pub struct PathSegmentModel {
    pub ident: String,
    pub has_arguments: bool,
}

/// A path: whether it begins with `::`, and its segments.
pub struct PathModel {
    pub leading_colon: bool,
    pub segments: Vec<PathSegmentModel>,
}

/// An attribute: its path, and the string literal it is set to when it has
/// the form `path = "..."`.
pub struct AttributeModel {
    pub path: PathModel,
    pub string_value: Option<String>,
}

/// The type of a parameter.
pub enum TypeModel {
    /// A path type.
    Path(PathModel),
    /// Any other type.
    Other,
}

/// A parameter of a function.
pub enum FnArgModel {
    /// `self`, in any form.
    Receiver,
    /// A parameter with a pattern and a type.
    Typed(TypeModel),
}

/// Whether a path is the lone identifier `ident`: no leading `::`, one
/// segment, no arguments.
pub open spec fn spec_path_is_ident(p: PathModel, ident: Seq<char>) -> bool {
    !p.leading_colon && p.segments@.len() == 1 && !p.segments@[0].has_arguments && p.segments@[0].ident@ == ident
}

/// Whether a path is the lone identifier `ident`: no leading `::`, one
/// segment, no arguments.
pub fn path_is_ident(p: &PathModel, ident: &str) -> (r: bool)
    ensures
        r == spec_path_is_ident(*p, ident@),
{
    if p.leading_colon || p.segments.len() != 1 || p.segments[0].has_arguments {
        return false;
    }
    let name: String = ident.to_owned();
    p.segments[0].ident.eq(&name)
}

/// Whether a path names the parameters wrapper: the lone identifier
/// `Parameters`, with or without generic arguments (as in
/// `Parameters<Sum>`).
pub open spec fn spec_is_parameters_wrapper(p: PathModel) -> bool {
    !p.leading_colon && p.segments@.len() == 1 && p.segments@[0].ident@ == "Parameters"@
}

/// Whether a path names the parameters wrapper: the lone identifier
/// `Parameters`, with or without generic arguments.
pub fn is_parameters_wrapper(p: &PathModel) -> (r: bool)
    ensures
        r == spec_is_parameters_wrapper(*p),
{
    if p.leading_colon || p.segments.len() != 1 {
        return false;
    }
    let name: String = "Parameters".to_owned();
    p.segments[0].ident.eq(&name)
}

/// Whether a character is white space: it has the Unicode property
/// `White_Space`.
pub open spec fn is_whitespace(c: char) -> bool {
    ('\t' <= c && c <= '\r') || c == ' ' || c == '\u{85}' || c == '\u{a0}' || c == '\u{1680}' || ('\u{2000}' <= c
        && c <= '\u{200a}') || c == '\u{2028}' || c == '\u{2029}' || c == '\u{202f}' || c == '\u{205f}' || c
        == '\u{3000}'
}

fn char_is_whitespace(c: char) -> (r: bool)
    ensures
        r == is_whitespace(c),
{
    ('\t' <= c && c <= '\r') || c == ' ' || c == '\u{85}' || c == '\u{a0}' || c == '\u{1680}' || ('\u{2000}' <= c
        && c <= '\u{200a}') || c == '\u{2028}' || c == '\u{2029}' || c == '\u{202f}' || c == '\u{205f}' || c
        == '\u{3000}'
}

/// `s` without its leading white space.
pub open spec fn trim_start(s: Seq<char>) -> Seq<char>
    decreases s.len(),
{
    if s.len() > 0 && is_whitespace(s[0]) {
        trim_start(s.drop_first())
    } else {
        s
    }
}

/// `s` without its trailing white space.
pub open spec fn trim_end(s: Seq<char>) -> Seq<char>
    decreases s.len(),
{
    if s.len() > 0 && is_whitespace(s.last()) {
        trim_end(s.drop_last())
    } else {
        s
    }
}

/// `s` without its leading and trailing white space.
pub open spec fn trim(s: Seq<char>) -> Seq<char> {
    trim_end(trim_start(s))
}

/// Trimming the start removes a run of white space and nothing else.
proof fn lemma_trim_start_shape(s: Seq<char>) -> (a: int)
    ensures
        0 <= a <= s.len(),
        trim_start(s) == s.skip(a),
        forall|i: int| 0 <= i < a ==> is_whitespace(#[trigger] s[i]),
        a < s.len() ==> !is_whitespace(s[a]),
    decreases s.len(),
{
    if s.len() > 0 && is_whitespace(s[0]) {
        let a1 = lemma_trim_start_shape(s.drop_first());
        assert(s.drop_first().skip(a1) =~= s.skip(a1 + 1));
        assert forall|i: int| 0 <= i < a1 + 1 implies is_whitespace(#[trigger] s[i]) by {
            if i > 0 {
                assert(s[i] == s.drop_first()[i - 1]);
            }
        }
        a1 + 1
    } else {
        assert(s.skip(0) =~= s);
        0
    }
}

/// Trimming the end removes a run of white space and nothing else.
proof fn lemma_trim_end_shape(s: Seq<char>) -> (b: int)
    ensures
        0 <= b <= s.len(),
        trim_end(s) == s.take(b),
        forall|i: int| b <= i < s.len() ==> is_whitespace(#[trigger] s[i]),
        b > 0 ==> !is_whitespace(s[b - 1]),
    decreases s.len(),
{
    if s.len() > 0 && is_whitespace(s.last()) {
        let b1 = lemma_trim_end_shape(s.drop_last());
        assert(s.drop_last().take(b1) =~= s.take(b1));
        assert forall|i: int| b1 <= i < s.len() implies is_whitespace(#[trigger] s[i]) by {
            if i < s.len() - 1 {
                assert(s[i] == s.drop_last()[i]);
            }
        }
        b1
    } else {
        assert(s.take(s.len() as int) =~= s);
        s.len() as int
    }
}

/// Trimming removes white space from both ends and nothing else: what is
/// left is a contiguous piece of the text, everything before and after it
/// is white space, and it neither starts nor ends with white space.
pub proof fn lemma_trim_removes_only_outer_white_space(s: Seq<char>)
    ensures
        exists|a: int, b: int|
            #![trigger s.subrange(a, b)]
            0 <= a <= b <= s.len() && trim(s) == s.subrange(a, b) && (forall|i: int| 0 <= i < a ==> is_whitespace(
                #[trigger] s[i],
            )) && (forall|i: int| b <= i < s.len() ==> is_whitespace(#[trigger] s[i])) && (a < b ==> !is_whitespace(s[a])
                && !is_whitespace(s[b - 1])),
{
    let a = lemma_trim_start_shape(s);
    let t = s.skip(a);
    let b1 = lemma_trim_end_shape(t);
    let b = a + b1;
    assert(t.take(b1) =~= s.subrange(a, b));
    assert forall|i: int| b <= i < s.len() implies is_whitespace(#[trigger] s[i]) by {
        assert(s[i] == t[i - a]);
    }
    if a < b {
        assert(s[a] == t[0]);
        assert(s[b - 1] == t[b1 - 1]);
    }
    assert(trim(s) == s.subrange(a, b));
}

proof fn lemma_trim_start_skip(s: Seq<char>, a: int)
    requires
        0 <= a <= s.len(),
        forall|i: int| 0 <= i < a ==> is_whitespace(s[i]),
        a == s.len() || !is_whitespace(s[a]),
    ensures
        trim_start(s) == s.skip(a),
    decreases a,
{
    if a == 0 {
        assert(s.skip(0) =~= s);
    } else {
        assert(is_whitespace(s[0]));
        let t = s.drop_first();
        assert forall|i: int| 0 <= i < a - 1 implies is_whitespace(t[i]) by {
            assert(t[i] == s[i + 1]);
        }
        if a - 1 < t.len() {
            assert(t[a - 1] == s[a]);
        }
        lemma_trim_start_skip(t, a - 1);
        assert(t.skip(a - 1) =~= s.skip(a));
    }
}

proof fn lemma_trim_end_take(s: Seq<char>, b: int)
    requires
        0 <= b <= s.len(),
        forall|i: int| b <= i < s.len() ==> is_whitespace(s[i]),
        b == 0 || !is_whitespace(s[b - 1]),
    ensures
        trim_end(s) == s.take(b),
    decreases s.len() - b,
{
    if b == s.len() {
        assert(s.take(b) =~= s);
        if s.len() > 0 {
            assert(s.last() == s[b - 1]);
        }
    } else {
        assert(is_whitespace(s.last()));
        let t = s.drop_last();
        assert forall|i: int| b <= i < t.len() implies is_whitespace(t[i]) by {
            assert(t[i] == s[i]);
        }
        if b > 0 {
            assert(t[b - 1] == s[b - 1]);
        }
        lemma_trim_end_take(t, b);
        assert(t.take(b) =~= s.take(b));
    }
}

/// The characters of `s` without its leading and trailing white space, as
/// `str::trim` gives them.
pub fn trim_text(s: &str) -> (r: String)
    ensures
        r@ == trim(s@),
{
    let chars = crate::text::chars_of(s);
    let n: usize = chars.len();
    let mut a: usize = 0;
    while a < n && char_is_whitespace(chars[a])
        invariant
            a <= n == chars@.len(),
            forall|i: int| 0 <= i < a ==> is_whitespace(chars@[i]),
        decreases n - a,
    {
        a = a + 1;
    }
    let mut b: usize = n;
    while b > a && char_is_whitespace(chars[b - 1])
        invariant
            a <= b <= n == chars@.len(),
            forall|i: int| b <= i < n ==> is_whitespace(chars@[i]),
        decreases b,
    {
        b = b - 1;
    }
    proof {
        lemma_trim_start_skip(chars@, a as int);
        let t = chars@.skip(a as int);
        assert forall|i: int| (b - a) <= i < t.len() implies is_whitespace(t[i]) by {
            assert(t[i] == chars@[i + a]);
        }
        if b > a {
            assert(t[b - a - 1] == chars@[b - 1]);
        }
        lemma_trim_end_take(t, (b - a) as int);
        assert(t.take((b - a) as int) =~= chars@.subrange(a as int, b as int));
    }
    crate::text::string_from_chars(&chars, a, b)
}

/// The line that a doc attribute gives to a description: its trimmed
/// text, when the attribute is `doc = "..."` and the text is not blank.
pub open spec fn spec_doc_line(attr: AttributeModel) -> Option<Seq<char>> {
    if !spec_path_is_ident(attr.path, "doc"@) {
        None
    } else {
        match attr.string_value {
            None => None,
            Some(v) => if trim(v@).len() == 0 {
                None
            } else {
                Some(trim(v@))
            },
        }
    }
}

/// The line that a doc attribute gives to a description: its trimmed
/// text, when the attribute is `doc = "..."` and the text is not blank.
pub fn extract_doc_line(attr: &AttributeModel) -> (r: Option<String>)
    ensures
        match spec_doc_line(*attr) {
            Some(t) => r matches Some(s) && s@ == t,
            None => r is None,
        },
{
    if !path_is_ident(&attr.path, "doc") {
        return None;
    }
    match &attr.string_value {
        None => None,
        Some(v) => {
            let t = trim_text(v.as_str());
            if t.as_str().unicode_len() == 0 {
                None
            } else {
                Some(t)
            }
        },
    }
}

/// The doc lines of a list of attributes, in order.
pub open spec fn doc_lines(attrs: Seq<AttributeModel>) -> Seq<Seq<char>>
    decreases attrs.len(),
{
    if attrs.len() == 0 {
        Seq::empty()
    } else {
        match spec_doc_line(attrs.last()) {
            Some(l) => doc_lines(attrs.drop_last()).push(l),
            None => doc_lines(attrs.drop_last()),
        }
    }
}

/// Lines joined with a newline between each two.
pub open spec fn join_lines(lines: Seq<Seq<char>>) -> Seq<char>
    decreases lines.len(),
{
    if lines.len() == 0 {
        Seq::empty()
    } else if lines.len() == 1 {
        lines[0]
    } else {
        join_lines(lines.drop_last()) + seq!['\n'] + lines.last()
    }
}

/// The description a tool gets from the doc comments of its function: the
/// doc lines, trimmed, blank ones left out, joined with newlines.
pub fn doc_description(attrs: &Vec<AttributeModel>) -> (r: String)
    ensures
        r@ == join_lines(doc_lines(attrs@)),
{
    let mut out = String::new();
    let mut count: usize = 0;
    let n: usize = attrs.len();
    let mut i: usize = 0;
    while i < n
        invariant
            i <= n == attrs@.len(),
            out@ == join_lines(doc_lines(attrs@.take(i as int))),
            count == doc_lines(attrs@.take(i as int)).len(),
            count <= i,
        decreases n - i,
    {
        let line = extract_doc_line(&attrs[i]);
        proof {
            assert(attrs@.take(i + 1).drop_last() =~= attrs@.take(i as int));
            assert(attrs@.take(i + 1).last() == attrs@[i as int]);
        }
        match line {
            Some(l) => {
                if count > 0 {
                    string_push(&mut out, '\n');
                }
                string_push_str(&mut out, l.as_str());
                count = count + 1;
                proof {
                    let prev = doc_lines(attrs@.take(i as int));
                    let next = doc_lines(attrs@.take(i + 1));
                    assert(next == prev.push(l@));
                    assert(next.drop_last() =~= prev);
                    if prev.len() == 0 {
                        assert(out@ =~= join_lines(next));
                    } else {
                        assert(out@ =~= join_lines(next));
                    }
                }
            },
            None => {},
        }
        i = i + 1;
    }
    proof {
        assert(attrs@.take(n as int) =~= attrs@);
    }
    out
}

/// Position of the first parameter whose type is the parameters wrapper,
/// from `from` on, or -1.
pub open spec fn parameters_index_from(args: Seq<FnArgModel>, from: int) -> int
    decreases args.len() - from,
{
    if from < 0 || from >= args.len() {
        -1
    } else if args[from] matches FnArgModel::Typed(TypeModel::Path(p)) && spec_is_parameters_wrapper(p) {
        from
    } else {
        parameters_index_from(args, from + 1)
    }
}

/// Position of the first parameter whose type is the parameters wrapper,
/// whose schema becomes the tool's input schema.
pub fn parameters_arg(args: &Vec<FnArgModel>) -> (r: Option<usize>)
    ensures
        match r {
            Some(i) => i == parameters_index_from(args@, 0),
            None => parameters_index_from(args@, 0) == -1,
        },
{
    let n: usize = args.len();
    let mut i: usize = 0;
    while i < n
        invariant
            i <= n == args@.len(),
            parameters_index_from(args@, 0) == parameters_index_from(args@, i as int),
        decreases n - i,
    {
        let found = match &args[i] {
            FnArgModel::Typed(TypeModel::Path(p)) => is_parameters_wrapper(p),
            _ => false,
        };
        if found {
            return Some(i);
        }
        i = i + 1;
    }
    None
}

/// Where the tool's name comes from.
pub enum NameSource {
    /// The attribute's own `name`.
    Given,
    /// The function's identifier, as a string literal.
    FunctionName(String),
}

/// Where the tool's description comes from.
pub enum DescriptionSource {
    /// The attribute's own `description`.
    Given,
    /// The doc comments of the function, as a string literal.
    DocComments(String),
}

/// Where the tool's input schema comes from.
pub enum SchemaSource {
    /// The attribute's own `input_schema`.
    Given,
    /// The schema of the type of the parameter at this position.
    ParametersOf(usize),
    /// The schema of an empty object.
    EmptyObject,
}

/// What the attribute resolves for the function it marks.
pub struct ResolvedToolPlan {
    pub name: NameSource,
    pub description: DescriptionSource,
    pub input_schema: SchemaSource,
    /// Whether the attribute gives annotations; without them, none.
    pub annotations_given: bool,
}

/// The name of the function that describes a tool: the marked function's
/// name followed by `_tool_attr`.
pub fn tool_attr_fn_name(fn_ident: &str) -> (r: String)
    ensures
        r@ == fn_ident@ + "_tool_attr"@,
{
    let mut out = fn_ident.to_owned();
    string_push_str(&mut out, "_tool_attr");
    out
}

/// What the attribute resolves: what it gives stays; the name defaults to
/// the function's name, the description to its doc comments, and the input
/// schema to that of the first parameter whose type is the `Parameters` wrapper, or else to
/// an empty object's.
pub fn resolve_tool_attribute(
    name_given: bool,
    description_given: bool,
    input_schema_given: bool,
    annotations_given: bool,
    fn_ident: &str,
    attrs: &Vec<AttributeModel>,
    args: &Vec<FnArgModel>,
) -> (r: ResolvedToolPlan)
    ensures
        if name_given {
            r.name is Given
        } else {
            r.name matches NameSource::FunctionName(n) && n@ == fn_ident@
        },
        if description_given {
            r.description is Given
        } else {
            r.description matches DescriptionSource::DocComments(d) && d@ == join_lines(doc_lines(attrs@))
        },
        if input_schema_given {
            r.input_schema is Given
        } else if parameters_index_from(args@, 0) >= 0 {
            r.input_schema matches SchemaSource::ParametersOf(i) && i == parameters_index_from(args@, 0)
        } else {
            r.input_schema is EmptyObject
        },
        r.annotations_given == annotations_given,
{
    let name = if name_given {
        NameSource::Given
    } else {
        NameSource::FunctionName(fn_ident.to_owned())
    };
    let description = if description_given {
        DescriptionSource::Given
    } else {
        DescriptionSource::DocComments(doc_description(attrs))
    };
    let input_schema = if input_schema_given {
        SchemaSource::Given
    } else {
        match parameters_arg(args) {
            Some(i) => SchemaSource::ParametersOf(i),
            None => SchemaSource::EmptyObject,
        }
    };
    ResolvedToolPlan { name, description, input_schema, annotations_given }
}

} // verus!
