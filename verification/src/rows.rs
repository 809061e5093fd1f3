//! Lazy JSON row formatter: a foldable, line-oriented view of a value.
//!
//! `format_rows` converts a value into one display row per visible node. A
//! container whose path is marked collapsed in the fold state renders as a
//! single placeholder row; an expanded container renders an opening
//! delimiter row, the rows of each child in order, and a closing delimiter
//! row. The formatter is pure: the same value, fold state and paths always
//! produce the same row sequence, so re-rendering after a fold toggle is a
//! bounded-cost operation and diffing is left to the renderer.

use vstd::prelude::*;

verus! {

broadcast use vstd::std_specs::vec::axiom_vec_index_decreases;

use crate::fold::FoldState;
use crate::json::JsonValue;

/// The style class the renderer applies to a row's own text. A row whose
/// `key` is present additionally draws the key in the key style.
#[derive(Clone, Copy, Debug, PartialEq, Eq, Structural)]
pub enum StyleClass {
    Brace,
    Bracket,
    StringValue,
    NumberValue,
    BooleanValue,
    NullValue,
}

/// One display row. `depth` is the nesting level (the length of the node's
/// path); `key` is the object member name when the node is a member value;
/// `collapsed` marks a placeholder row standing for a whole folded subtree.
pub struct Row {
    pub depth: usize,
    pub key: Option<String>,
    pub style: StyleClass,
    pub collapsed: bool,
    pub text: String,
}

/// The mathematical image of a row: text as character sequences.
#[verifier::ext_equal]
pub ghost struct RowV {
    pub depth: nat,
    pub key: Option<Seq<char>>,
    pub style: StyleClass,
    pub collapsed: bool,
    pub text: Seq<char>,
}

impl View for Row {
    type V = RowV;

    open spec fn view(&self) -> RowV {
        RowV {
            depth: self.depth as nat,
            key: match self.key {
                Some(k) => Some(k@),
                None => None,
            },
            style: self.style,
            collapsed: self.collapsed,
            text: self.text@,
        }
    }
}

/// The mathematical image of a whole row list.
pub open spec fn rows_view(rows: Seq<Row>) -> Seq<RowV> {
    rows.map_values(|r: Row| r@)
}

/// The placeholder text a collapsed container renders as.
pub open spec fn spec_placeholder_text(v: JsonValue) -> Seq<char> {
    if v is Array {
        "[…]"@
    } else {
        "{…}"@
    }
}

/// The single row standing for a collapsed container at `path`.
pub open spec fn spec_placeholder_row(v: JsonValue, key: Option<Seq<char>>, path: Seq<usize>) -> RowV {
    RowV {
        depth: path.len(),
        key,
        style: if v is Array {
            StyleClass::Bracket
        } else {
            StyleClass::Brace
        },
        collapsed: true,
        text: spec_placeholder_text(v),
    }
}

/// The single row for a leaf value at `path`.
pub open spec fn spec_leaf_row(v: JsonValue, key: Option<Seq<char>>, path: Seq<usize>) -> RowV {
    RowV {
        depth: path.len(),
        key,
        style: match v {
            JsonValue::Null => StyleClass::NullValue,
            JsonValue::Bool(_) => StyleClass::BooleanValue,
            JsonValue::Number(_) => StyleClass::NumberValue,
            _ => StyleClass::StringValue,
        },
        collapsed: false,
        text: match v {
            JsonValue::Null => "null"@,
            JsonValue::Bool(b) => if b {
                "true"@
            } else {
                "false"@
            },
            JsonValue::Number(s) => s@,
            JsonValue::Text(s) => s@,
            _ => Seq::<char>::empty(),
        },
    }
}

/// The opening delimiter row of an expanded container.
pub open spec fn spec_open_row(v: JsonValue, key: Option<Seq<char>>, path: Seq<usize>) -> RowV {
    RowV {
        depth: path.len(),
        key,
        style: if v is Array {
            StyleClass::Bracket
        } else {
            StyleClass::Brace
        },
        collapsed: false,
        text: if v is Array {
            "["@
        } else {
            "{"@
        },
    }
}

/// The closing delimiter row of an expanded container.
pub open spec fn spec_close_row(v: JsonValue, path: Seq<usize>) -> RowV {
    RowV {
        depth: path.len(),
        key: None,
        style: if v is Array {
            StyleClass::Bracket
        } else {
            StyleClass::Brace
        },
        collapsed: false,
        text: if v is Array {
            "]"@
        } else {
            "}"@
        },
    }
}

/// The rows for the node at `path`: one row for a leaf or a collapsed
/// container, delimiters around the children's rows otherwise.
pub open spec fn spec_rows(
    v: JsonValue,
    fold: FoldState,
    path: Seq<usize>,
    key: Option<Seq<char>>,
) -> Seq<RowV>
    decreases v, 0int,
{
    match v {
        JsonValue::Array(children) => {
            if fold.spec_collapsed(path) {
                seq![spec_placeholder_row(v, key, path)]
            } else {
                seq![spec_open_row(v, key, path)] + spec_array_rows(
                    children,
                    children@.len() as int,
                    fold,
                    path,
                ) + seq![spec_close_row(v, path)]
            }
        },
        JsonValue::Object(members) => {
            if fold.spec_collapsed(path) {
                seq![spec_placeholder_row(v, key, path)]
            } else {
                seq![spec_open_row(v, key, path)] + spec_object_rows(
                    members,
                    members@.len() as int,
                    fold,
                    path,
                ) + seq![spec_close_row(v, path)]
            }
        },
        _ => seq![spec_leaf_row(v, key, path)],
    }
}

/// The rows of the first `n` elements of an array, in element order.
pub open spec fn spec_array_rows(
    children: Vec<JsonValue>,
    n: int,
    fold: FoldState,
    path: Seq<usize>,
) -> Seq<RowV>
    decreases children, n,
{
    if n <= 0 || n > children@.len() {
        Seq::empty()
    } else {
        spec_array_rows(children, n - 1, fold, path) + spec_rows(
            children@[n - 1],
            fold,
            path.push((n - 1) as usize),
            None,
        )
    }
}

/// The rows of the first `n` members of an object, in member order, each
/// carrying its key.
pub open spec fn spec_object_rows(
    members: Vec<(String, JsonValue)>,
    n: int,
    fold: FoldState,
    path: Seq<usize>,
) -> Seq<RowV>
    decreases members, n,
{
    if n <= 0 || n > members@.len() {
        Seq::empty()
    } else {
        spec_object_rows(members, n - 1, fold, path) + spec_rows(
            members@[n - 1].1,
            fold,
            path.push((n - 1) as usize),
            Some(members@[n - 1].0@),
        )
    }
}

/// A copy of a node path.
fn copy_path(p: &Vec<usize>) -> (r: Vec<usize>)
    ensures
        r@ == p@,
{
    let mut r: Vec<usize> = Vec::new();
    let mut i: usize = 0;
    while i < p.len()
        invariant
            i <= p@.len(),
            r@ == p@.take(i as int),
        decreases p@.len() - i,
    {
        r.push(p[i]);
        proof {
            assert(p@.take(i + 1) =~= p@.take(i as int).push(p@[i as int]));
        }
        i = i + 1;
    }
    proof {
        assert(p@.take(p@.len() as int) =~= p@);
    }
    r
}

/// The spec-level image of an optional key argument.
pub open spec fn spec_key(key: Option<&String>) -> Option<Seq<char>> {
    match key {
        Some(k) => Some(k@),
        None => None,
    }
}

/// Appends the rows of the node at `path` to `out`, exactly as `spec_rows`
/// states them.
#[verifier::loop_isolation(false)]
fn format_node(
    v: &JsonValue,
    fold: &FoldState,
    path: &Vec<usize>,
    key: Option<&String>,
    out: &mut Vec<Row>,
)
    ensures
        rows_view(final(out)@) == rows_view(old(out)@) + spec_rows(*v, *fold, path@, spec_key(key)),
    decreases *v,
{
    let ghost pre = out@;
    let depth = path.len();
    let owned_key: Option<String> = match key {
        Some(k) => Some(k.clone()),
        None => None,
    };
    match v {
        JsonValue::Null => {
            out.push(
                Row {
                    depth,
                    key: owned_key,
                    style: StyleClass::NullValue,
                    collapsed: false,
                    text: "null".to_owned(),
                },
            );
            proof {
                lemma_rows_view_push(pre, out@.last());
                assert(rows_view(out@) =~= rows_view(pre) + spec_rows(
                    *v,
                    *fold,
                    path@,
                    spec_key(key),
                ));
            }
        },
        JsonValue::Bool(b) => {
            out.push(
                Row {
                    depth,
                    key: owned_key,
                    style: StyleClass::BooleanValue,
                    collapsed: false,
                    text: if *b {
                        "true".to_owned()
                    } else {
                        "false".to_owned()
                    },
                },
            );
            proof {
                lemma_rows_view_push(pre, out@.last());
                assert(rows_view(out@) =~= rows_view(pre) + spec_rows(
                    *v,
                    *fold,
                    path@,
                    spec_key(key),
                ));
            }
        },
        JsonValue::Number(s) => {
            out.push(
                Row {
                    depth,
                    key: owned_key,
                    style: StyleClass::NumberValue,
                    collapsed: false,
                    text: s.clone(),
                },
            );
            proof {
                lemma_rows_view_push(pre, out@.last());
                assert(rows_view(out@) =~= rows_view(pre) + spec_rows(
                    *v,
                    *fold,
                    path@,
                    spec_key(key),
                ));
            }
        },
        JsonValue::Text(s) => {
            out.push(
                Row {
                    depth,
                    key: owned_key,
                    style: StyleClass::StringValue,
                    collapsed: false,
                    text: s.clone(),
                },
            );
            proof {
                lemma_rows_view_push(pre, out@.last());
                assert(rows_view(out@) =~= rows_view(pre) + spec_rows(
                    *v,
                    *fold,
                    path@,
                    spec_key(key),
                ));
            }
        },
        JsonValue::Array(children) => {
            if fold.is_collapsed(path) {
                out.push(
                    Row {
                        depth,
                        key: owned_key,
                        style: StyleClass::Bracket,
                        collapsed: true,
                        text: "[…]".to_owned(),
                    },
                );
                proof {
                    lemma_rows_view_push(pre, out@.last());
                    assert(rows_view(out@) =~= rows_view(pre) + spec_rows(
                        *v,
                        *fold,
                        path@,
                        spec_key(key),
                    ));
                }
            } else {
                out.push(
                    Row {
                        depth,
                        key: owned_key,
                        style: StyleClass::Bracket,
                        collapsed: false,
                        text: "[".to_owned(),
                    },
                );
                proof {
                    lemma_rows_view_push(pre, out@.last());
                }
                let mut i: usize = 0;
                while i < children.len()
                    invariant
                        i <= children@.len(),
                        rows_view(out@) == rows_view(pre) + seq![
                            spec_open_row(*v, spec_key(key), path@),
                        ] + spec_array_rows(*children, i as int, *fold, path@),
                    decreases children@.len() - i,
                {
                    let ghost mid = out@;
                    let mut child_path = copy_path(path);
                    child_path.push(i);
                    format_node(&children[i], fold, &child_path, None, out);
                    proof {
                        assert(rows_view(out@) =~= rows_view(pre) + seq![
                            spec_open_row(*v, spec_key(key), path@),
                        ] + spec_array_rows(*children, i + 1, *fold, path@));
                    }
                    i = i + 1;
                }
                let ghost before_close = out@;
                out.push(
                    Row {
                        depth,
                        key: None,
                        style: StyleClass::Bracket,
                        collapsed: false,
                        text: "]".to_owned(),
                    },
                );
                proof {
                    lemma_rows_view_push(before_close, out@.last());
                    assert(rows_view(out@) =~= rows_view(pre) + spec_rows(
                        *v,
                        *fold,
                        path@,
                        spec_key(key),
                    ));
                }
            }
        },
        JsonValue::Object(members) => {
            if fold.is_collapsed(path) {
                out.push(
                    Row {
                        depth,
                        key: owned_key,
                        style: StyleClass::Brace,
                        collapsed: true,
                        text: "{…}".to_owned(),
                    },
                );
                proof {
                    lemma_rows_view_push(pre, out@.last());
                    assert(rows_view(out@) =~= rows_view(pre) + spec_rows(
                        *v,
                        *fold,
                        path@,
                        spec_key(key),
                    ));
                }
            } else {
                out.push(
                    Row {
                        depth,
                        key: owned_key,
                        style: StyleClass::Brace,
                        collapsed: false,
                        text: "{".to_owned(),
                    },
                );
                proof {
                    lemma_rows_view_push(pre, out@.last());
                }
                let mut i: usize = 0;
                while i < members.len()
                    invariant
                        i <= members@.len(),
                        rows_view(out@) == rows_view(pre) + seq![
                            spec_open_row(*v, spec_key(key), path@),
                        ] + spec_object_rows(*members, i as int, *fold, path@),
                    decreases members@.len() - i,
                {
                    let mut child_path = copy_path(path);
                    child_path.push(i);
                    format_node(&members[i].1, fold, &child_path, Some(&members[i].0), out);
                    proof {
                        assert(rows_view(out@) =~= rows_view(pre) + seq![
                            spec_open_row(*v, spec_key(key), path@),
                        ] + spec_object_rows(*members, i + 1, *fold, path@));
                    }
                    i = i + 1;
                }
                let ghost before_close = out@;
                out.push(
                    Row {
                        depth,
                        key: None,
                        style: StyleClass::Brace,
                        collapsed: false,
                        text: "}".to_owned(),
                    },
                );
                proof {
                    lemma_rows_view_push(before_close, out@.last());
                    assert(rows_view(out@) =~= rows_view(pre) + spec_rows(
                        *v,
                        *fold,
                        path@,
                        spec_key(key),
                    ));
                }
            }
        },
    }
}

/// The row list for a whole document: the rows of the root node, whose path
/// is empty and which carries no key.
pub fn format_rows(value: &JsonValue, fold: &FoldState) -> (rows: Vec<Row>)
    ensures
        rows_view(rows@) == spec_rows(*value, *fold, Seq::empty(), None),
{
    let mut out: Vec<Row> = Vec::new();
    let root_path: Vec<usize> = Vec::new();
    format_node(value, fold, &root_path, None, &mut out);
    proof {
        assert(rows_view(Seq::<Row>::empty()) =~= Seq::<RowV>::empty());
    }
    out
}

/// Mapping rows to their images commutes with appending one row.
proof fn lemma_rows_view_push(s: Seq<Row>, r: Row)
    ensures
        rows_view(s.push(r)) =~= rows_view(s).push(r@),
{
}

/// Lazy-formatter law: the formatter cannot tell structurally equal values
/// apart — a value and any structurally equal copy of it produce the same
/// row sequence under the same fold state.
pub proof fn lemma_rows_respect_json_eq(
    a: JsonValue,
    b: JsonValue,
    fold: FoldState,
    path: Seq<usize>,
    key: Option<Seq<char>>,
)
    requires
        crate::json::spec_json_eq(a, b),
    ensures
        spec_rows(a, fold, path, key) == spec_rows(b, fold, path, key),
    decreases a, 1int,
{
    match (a, b) {
        (JsonValue::Array(x), JsonValue::Array(y)) => {
            if !fold.spec_collapsed(path) {
                lemma_array_rows_respect_json_eq(x, y, x@.len() as int, fold, path);
            }
        },
        (JsonValue::Object(x), JsonValue::Object(y)) => {
            if !fold.spec_collapsed(path) {
                lemma_object_rows_respect_json_eq(x, y, x@.len() as int, fold, path);
            }
        },
        _ => {},
    }
}

proof fn lemma_array_rows_respect_json_eq(
    x: Vec<JsonValue>,
    y: Vec<JsonValue>,
    n: int,
    fold: FoldState,
    path: Seq<usize>,
)
    requires
        x@.len() == y@.len(),
        forall|i: int| 0 <= i < x@.len() ==> crate::json::spec_json_eq(#[trigger] x@[i], y@[i]),
    ensures
        spec_array_rows(x, n, fold, path) == spec_array_rows(y, n, fold, path),
    decreases x, n,
{
    if 0 < n <= x@.len() {
        lemma_array_rows_respect_json_eq(x, y, n - 1, fold, path);
        lemma_rows_respect_json_eq(x@[n - 1], y@[n - 1], fold, path.push((n - 1) as usize), None);
    }
}

proof fn lemma_object_rows_respect_json_eq(
    x: Vec<(String, JsonValue)>,
    y: Vec<(String, JsonValue)>,
    n: int,
    fold: FoldState,
    path: Seq<usize>,
)
    requires
        x@.len() == y@.len(),
        forall|i: int|
            0 <= i < x@.len() ==> (#[trigger] x@[i]).0@ == y@[i].0@ && crate::json::spec_json_eq(
                x@[i].1,
                y@[i].1,
            ),
    ensures
        spec_object_rows(x, n, fold, path) == spec_object_rows(y, n, fold, path),
    decreases x, n,
{
    if 0 < n <= x@.len() {
        lemma_object_rows_respect_json_eq(x, y, n - 1, fold, path);
        lemma_rows_respect_json_eq(
            x@[n - 1].1,
            y@[n - 1].1,
            fold,
            path.push((n - 1) as usize),
            Some(x@[n - 1].0@),
        );
    }
}

/// Lazy-formatter law: a collapsed container at the root produces exactly
/// one row, the placeholder — however large the value is, the folded view
/// is a single line.
pub proof fn lemma_collapsed_root_is_one_placeholder(v: JsonValue, fold: FoldState)
    requires
        v.spec_is_container(),
        fold.spec_collapsed(Seq::empty()),
    ensures
        spec_rows(v, fold, Seq::empty(), None) == seq![
            spec_placeholder_row(v, None, Seq::empty()),
        ],
{
}

} // verus!
