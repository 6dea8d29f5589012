//! In-place edits of the TOML config text that keep the user's comments,
//! formatting and unrelated keys: one value at a dot-separated key path, or
//! the whole `[calibration]` section.  The document model is `toml_edit`'s;
//! reading and writing the file is left to the caller.

use vstd::prelude::*;
use vstd::string::{StrSliceExecFns, StringExecFns};

use crate::calibrate::AxisRange;

verus! {

// ── The document model ────────────────────────────────────────────────────────

#[verifier::external_type_specification]
#[verifier::external_body]
pub struct ExDocumentMut(toml_edit::DocumentMut);

#[verifier::external_type_specification]
#[verifier::external_body]
pub struct ExTable(toml_edit::Table);

#[verifier::external_type_specification]
#[verifier::external_body]
pub struct ExItem(toml_edit::Item);

#[verifier::external_type_specification]
#[verifier::external_body]
pub struct ExTomlError(toml_edit::TomlError);

/// The keys a table holds an entry for.
pub uninterp spec fn table_keys(t: toml_edit::Table) -> Set<Seq<char>>;

/// The keys whose entry in a table is itself a (non-inline) table.
pub uninterp spec fn table_tables(t: toml_edit::Table) -> Set<Seq<char>>;

/// Whether a text parses as a TOML document.
pub uninterp spec fn toml_parses(text: Seq<char>) -> bool;

/// The keys of the root table of the document that `toml_edit` parses from a
/// text (as `table_keys` reads a table).
pub uninterp spec fn text_root_keys(text: Seq<char>) -> Set<Seq<char>>;

/// The keys of the root table of the document parsed from a text whose
/// entry is a table (as `table_tables` reads a table).
pub uninterp spec fn text_root_tables(text: Seq<char>) -> Set<Seq<char>>;

/// The keys of a document's root table (as `table_keys` reads a table).
pub uninterp spec fn doc_keys(d: toml_edit::DocumentMut) -> Set<Seq<char>>;

/// The keys of a document's root table whose entry is a table.
pub uninterp spec fn doc_tables(d: toml_edit::DocumentMut) -> Set<Seq<char>>;

/// The text a document renders to.
pub uninterp spec fn doc_text(d: toml_edit::DocumentMut) -> Seq<char>;

/// A TOML integer, boolean or string, as plain values.
pub ghost enum Scalar {
    Int(i64),
    Bool(bool),
    Str(Seq<char>),
}

/// The integer, boolean and string values held in a table and in the tables
/// nested in it through entries that are tables, each by its key path.
pub uninterp spec fn table_scalars(t: toml_edit::Table) -> Map<Seq<Seq<char>>, Scalar>;

/// The scalars of a document's root table, as `table_scalars` reads it.
pub uninterp spec fn doc_scalars(d: toml_edit::DocumentMut) -> Map<Seq<Seq<char>>, Scalar>;

/// The scalars of the document that `toml_edit` parses from a text.
pub uninterp spec fn text_scalars(text: Seq<char>) -> Map<Seq<Seq<char>>, Scalar>;

/// Whether the key path `a` is `b` or leads to it.
pub open spec fn path_prefix(a: Seq<Seq<char>>, b: Seq<Seq<char>>) -> bool {
    a.len() <= b.len() && b.take(a.len() as int) == a
}

/// The scalars of `m` that are not under the entry `key`.
pub open spec fn outside(m: Map<Seq<Seq<char>>, Scalar>, key: Seq<char>) -> Map<Seq<Seq<char>>, Scalar> {
    Map::new(|p: Seq<Seq<char>>| m.contains_key(p) && p.len() > 0 && p[0] != key, |p: Seq<Seq<char>>| m[p])
}

/// The scalars of `m` under the entry `key`, by their path below it.
pub open spec fn below(m: Map<Seq<Seq<char>>, Scalar>, key: Seq<char>) -> Map<Seq<Seq<char>>, Scalar> {
    Map::new(
        |q: Seq<Seq<char>>| q.len() > 0 && m.contains_key(seq![key] + q),
        |q: Seq<Seq<char>>| m[seq![key] + q],
    )
}

/// The scalars `m` with those of the table `c` placed under the entry `key`.
pub open spec fn graft(
    m: Map<Seq<Seq<char>>, Scalar>,
    key: Seq<char>,
    c: Map<Seq<Seq<char>>, Scalar>,
) -> Map<Seq<Seq<char>>, Scalar> {
    Map::new(
        |p: Seq<Seq<char>>|
            (p.len() > 0 && p[0] != key && m.contains_key(p)) || (p.len() > 1 && p[0] == key && c.contains_key(
                p.drop_first(),
            )),
        |p: Seq<Seq<char>>|
            if p.len() > 1 && p[0] == key && c.contains_key(p.drop_first()) {
                c[p.drop_first()]
            } else {
                m[p]
            },
    )
}

/// The scalars of `m` whose path neither leads to `path` nor passes
/// through it.
pub open spec fn unrelated(m: Map<Seq<Seq<char>>, Scalar>, path: Seq<Seq<char>>) -> Map<Seq<Seq<char>>, Scalar> {
    Map::new(
        |p: Seq<Seq<char>>| m.contains_key(p) && !path_prefix(p, path) && !path_prefix(path, p),
        |p: Seq<Seq<char>>| m[p],
    )
}

/// `str::parse::<toml_edit::DocumentMut>`: parse a TOML document, keeping its
/// formatting.  Success depends on the text alone; the document's root keys
/// root tables and scalars are those of the text (which is what the names
/// over texts mean).
/// Nothing is claimed of the error.
#[verifier::external_body]
fn parse_document(text: &str) -> (r: Result<toml_edit::DocumentMut, toml_edit::TomlError>)
    ensures
        r.is_ok() == toml_parses(text@),
        r matches Ok(d) ==> doc_keys(d) == text_root_keys(text@) && doc_tables(d) == text_root_tables(text@)
            && doc_scalars(d) == text_scalars(text@),
{
    text.parse::<toml_edit::DocumentMut>()
}

/// `toml_edit::DocumentMut::new`: an empty document, whose root table has
/// no entries.
#[verifier::external_body]
fn new_document() -> (d: toml_edit::DocumentMut)
    ensures
        doc_keys(d) == Set::<Seq<char>>::empty(),
        doc_tables(d) == Set::<Seq<char>>::empty(),
        doc_scalars(d).dom().is_empty(),
{
    toml_edit::DocumentMut::new()
}

/// `toml_edit::DocumentMut::as_table_mut`: the root table of a document.
/// The document's root keys, tables and scalars are those of that table,
/// before and after it is edited.
#[verifier::external_body]
fn root_table(doc: &mut toml_edit::DocumentMut) -> (t: &mut toml_edit::Table)
    ensures
        table_keys(*t) == doc_keys(*old(doc)),
        table_tables(*t) == doc_tables(*old(doc)),
        doc_keys(*final(doc)) == table_keys(*final(t)),
        doc_tables(*final(doc)) == table_tables(*final(t)),
        table_scalars(*t) == doc_scalars(*old(doc)),
        doc_scalars(*final(doc)) == table_scalars(*final(t)),
{
    doc.as_table_mut()
}

/// `toml_edit::Table::contains_key`: whether the table has an entry for
/// `key` (without one, nothing is held under `key`).
#[verifier::external_body]
fn table_has_key(t: &toml_edit::Table, key: &str) -> (b: bool)
    ensures
        b == table_keys(*t).contains(key@),
        !b ==> forall|p: Seq<Seq<char>>|
            #[trigger] table_scalars(*t).contains_key(p) && p.len() > 0 ==> p[0] != key@,
{
    t.contains_key(key)
}

/// `toml_edit::Table::contains_table`: whether the entry for `key` is a table
/// (and so an entry at all; an entry that is no table holds nothing
/// nested).
#[verifier::external_body]
fn table_has_table(t: &toml_edit::Table, key: &str) -> (b: bool)
    ensures
        b == table_tables(*t).contains(key@),
        b ==> table_keys(*t).contains(key@),
        !b ==> forall|p: Seq<Seq<char>>|
            #[trigger] table_scalars(*t).contains_key(p) && p.len() > 1 ==> p[0] != key@,
{
    t.contains_table(key)
}

/// `toml_edit::table` stored under `key` (through `IndexMut`): the entry for
/// `key` becomes a new empty table, whatever it held before; the other
/// entries stay as they were.
#[verifier::external_body]
fn table_put_table(t: &mut toml_edit::Table, key: &str)
    ensures
        table_keys(*final(t)) == table_keys(*old(t)).insert(key@),
        table_tables(*final(t)) == table_tables(*old(t)).insert(key@),
        table_scalars(*final(t)) == outside(table_scalars(*old(t)), key@),
{
    t[key] = toml_edit::table();
}

/// `toml_edit::Item::as_table_mut` on the entry for `key`: the sub-table
/// stored there.  Requires that entry to be a table (else there is none).
/// Its scalars are those held under `key`.  Whatever is done through the
/// sub-table, the entry stays a table and the other entries are not touched:
/// the table's keys and tables stay as they were, and its scalars are those
/// outside `key` together with the sub-table's, placed under `key`.
#[verifier::external_body]
fn table_child<'a>(t: &'a mut toml_edit::Table, key: &str) -> (c: &'a mut toml_edit::Table)
    requires
        table_tables(*old(t)).contains(key@),
    ensures
        table_keys(*final(t)) == table_keys(*old(t)),
        table_tables(*final(t)) == table_tables(*old(t)),
        table_scalars(*c) == below(table_scalars(*old(t)), key@),
        table_scalars(*final(t)) == graft(outside(table_scalars(*old(t)), key@), key@, table_scalars(*final(c))),
{
    t[key].as_table_mut().expect("the entry is a table")
}

/// An item stored under `key` (through `IndexMut`): the table gains or
/// replaces the entry for `key`; every other entry stays as it was.  What
/// the item is decides whether `key` then counts as present or as a table,
/// so nothing is claimed of `key` itself.
#[verifier::external_body]
fn table_put_item(t: &mut toml_edit::Table, key: &str, item: toml_edit::Item)
    ensures
        forall|k: Seq<char>|
            k != key@ ==> (table_keys(*final(t)).contains(k) == table_keys(*old(t)).contains(k) && table_tables(
                *final(t),
            ).contains(k) == table_tables(*old(t)).contains(k)),
        outside(table_scalars(*final(t)), key@) == outside(table_scalars(*old(t)), key@),
{
    t[key] = item;
}

/// `toml_edit::value` of an integer stored under `key` (through `IndexMut`):
/// the entry for `key` becomes that integer, the other entries stay.
#[verifier::external_body]
fn table_put_int(t: &mut toml_edit::Table, key: &str, v: i64)
    ensures
        table_keys(*final(t)) == table_keys(*old(t)).insert(key@),
        table_tables(*final(t)) == table_tables(*old(t)).remove(key@),
        table_scalars(*final(t)) == outside(table_scalars(*old(t)), key@).insert(seq![key@], Scalar::Int(v)),
{
    t[key] = toml_edit::value(v);
}

/// `toml_edit::value` of a boolean stored under `key` (through `IndexMut`):
/// the entry for `key` becomes that boolean, the other entries stay.
#[verifier::external_body]
fn table_put_bool(t: &mut toml_edit::Table, key: &str, v: bool)
    ensures
        table_keys(*final(t)) == table_keys(*old(t)).insert(key@),
        table_tables(*final(t)) == table_tables(*old(t)).remove(key@),
        table_scalars(*final(t)) == outside(table_scalars(*old(t)), key@).insert(seq![key@], Scalar::Bool(v)),
{
    t[key] = toml_edit::value(v);
}

/// `toml_edit::value` of a string stored under `key` (through `IndexMut`):
/// the entry for `key` becomes that string, the other entries stay.
#[verifier::external_body]
fn table_put_str(t: &mut toml_edit::Table, key: &str, v: &str)
    ensures
        table_keys(*final(t)) == table_keys(*old(t)).insert(key@),
        table_tables(*final(t)) == table_tables(*old(t)).remove(key@),
        table_scalars(*final(t)) == outside(table_scalars(*old(t)), key@).insert(seq![key@], Scalar::Str(v@)),
{
    t[key] = toml_edit::value(v);
}

/// `toml_edit::Table::set_implicit`: whether an empty table is left out of
/// the rendered text.
#[verifier::external_body]
fn table_set_implicit(t: &mut toml_edit::Table, implicit: bool)
    ensures
        table_keys(*final(t)) == table_keys(*old(t)),
        table_tables(*final(t)) == table_tables(*old(t)),
        table_scalars(*final(t)) == table_scalars(*old(t)),
{
    t.set_implicit(implicit);
}

/// `DocumentMut::to_string`: the document rendered as TOML text.  The
/// rendering depends on the document alone.
#[verifier::external_body]
fn render_document(doc: &toml_edit::DocumentMut) -> (s: String)
    ensures
        s@ == doc_text(*doc),
{
    doc.to_string()
}

// ── Errors ────────────────────────────────────────────────────────────────────

/// Errors from config write-back operations.
#[derive(Debug)]
pub enum ConfigWriteError {
    /// The config file could not be read (message of the failure).
    Read(String),
    /// The TOML document could not be parsed.
    Parse(toml_edit::TomlError),
    /// The config file could not be written (message of the failure).
    Write(String),
}

// ── Key paths ─────────────────────────────────────────────────────────────────

/// The parts of a text split at every `.`: one more part than there are
/// dots, empty parts included (so the empty text is one empty part).
pub open spec fn split_dots(s: Seq<char>) -> Seq<Seq<char>>
    decreases s.len(),
{
    if s.len() == 0 {
        seq![Seq::<char>::empty()]
    } else {
        let rest = split_dots(s.drop_last());
        if s.last() == '.' {
            rest.push(Seq::<char>::empty())
        } else {
            rest.update(rest.len() - 1, rest.last().push(s.last()))
        }
    }
}

/// Splitting never yields an empty list of parts.
proof fn lemma_split_nonempty(s: Seq<char>)
    ensures
        split_dots(s).len() >= 1,
    decreases s.len(),
{
    if s.len() > 0 {
        lemma_split_nonempty(s.drop_last());
    }
}

/// Split a dot-separated key path into its parts.
pub fn split_key_path(key_path: &str) -> (parts: Vec<String>)
    ensures
        parts@.len() == split_dots(key_path@).len(),
        forall|i: int| 0 <= i < parts@.len() ==> #[trigger] parts@[i]@ == split_dots(key_path@)[i],
{
    let n = key_path.unicode_len();
    let mut parts: Vec<String> = Vec::new();
    let mut start: usize = 0;
    let mut i: usize = 0;
    proof {
        reveal_strlit(".");
    }
    while i < n
        invariant
            n == key_path@.len(),
            start <= i <= n,
            parts@.len() + 1 == split_dots(key_path@.take(i as int)).len(),
            forall|k: int| 0 <= k < parts@.len() ==> #[trigger] parts@[k]@ == split_dots(key_path@.take(i as int))[k],
            key_path@.subrange(start as int, i as int) == split_dots(key_path@.take(i as int)).last(),
        decreases n - i,
    {
        let c = key_path.get_char(i);
        proof {
            assert(key_path@.take(i + 1).drop_last() =~= key_path@.take(i as int));
            assert(key_path@.take(i + 1).last() == c);
            lemma_split_nonempty(key_path@.take(i as int));
        }
        if c == '.' {
            let piece = String::from_str(key_path.substring_char(start, i));
            parts.push(piece);
            i = i + 1;
            start = i;
            assert(key_path@.subrange(start as int, i as int) =~= Seq::<char>::empty());
        } else {
            i = i + 1;
            assert(key_path@.subrange(start as int, i as int) =~= key_path@.subrange(start as int, i - 1).push(c));
        }
    }
    let last = String::from_str(key_path.substring_char(start, n));
    parts.push(last);
    proof {
        assert(key_path@.take(n as int) =~= key_path@);
    }
    parts
}

// ── Patching one value ────────────────────────────────────────────────────────

/// A value the library writes into a config file.
#[derive(Debug, Clone, PartialEq, Eq)]
pub enum TomlValue {
    Int(i64),
    Bool(bool),
    Str(String),
}

/// The scalar a value is stored as.
pub open spec fn scalar_of(v: TomlValue) -> Scalar {
    match v {
        TomlValue::Int(i) => Scalar::Int(i),
        TomlValue::Bool(b) => Scalar::Bool(b),
        TomlValue::Str(s) => Scalar::Str(s@),
    }
}

/// What is stored at the end of a key path: any `toml_edit` item, or a value.
enum Leaf<'a> {
    Item(toml_edit::Item),
    Value(&'a TomlValue),
}

/// The parts of a split key path as plain values.
pub open spec fn key_parts(parts: Seq<String>) -> Seq<Seq<char>> {
    parts.map_values(|s: String| s@)
}

/// A document's root after storing at the key path `parts`, on a root with
/// `keys` and `tables`: only the root entry for the first part changed, and
/// when the path goes deeper that entry is a table.
pub open spec fn other_root_entries_kept(
    d: toml_edit::DocumentMut,
    keys: Set<Seq<char>>,
    tables: Set<Seq<char>>,
    parts: Seq<Seq<char>>,
) -> bool {
    &&& forall|k: Seq<char>|
        k != parts[0] ==> (doc_keys(d).contains(k) == keys.contains(k) && doc_tables(d).contains(k)
            == tables.contains(k))
    &&& parts.len() > 1 ==> doc_keys(d).contains(parts[0]) && doc_tables(d).contains(parts[0])
}

/// How a key path of the form `key` then `rest` leads to, or lies past,
/// another path: through its first step.
proof fn lemma_prefix_cons(key: Seq<char>, rest: Seq<Seq<char>>, p: Seq<Seq<char>>)
    ensures
        path_prefix(seq![key] + rest, p) <==> (p.len() > 0 && p[0] == key && path_prefix(rest, p.drop_first())),
        path_prefix(p, seq![key] + rest) <==> (p.len() == 0 || (p[0] == key && path_prefix(
            p.drop_first(),
            rest,
        ))),
{
    let path = seq![key] + rest;
    assert(path.len() == rest.len() + 1);
    assert(path[0] == key);
    assert(path.drop_first() =~= rest);
    if path_prefix(path, p) {
        assert(p.take(path.len() as int)[0] == p[0]);
        assert(p.drop_first().take(rest.len() as int) =~= p.take(path.len() as int).drop_first());
    }
    if p.len() > 0 && p[0] == key && path_prefix(rest, p.drop_first()) {
        assert(p.take(path.len() as int) =~= path);
    }
    if p.len() > 0 && path_prefix(p, path) {
        assert(path.take(p.len() as int)[0] == path[0]);
        assert(rest.take(p.len() - 1) =~= path.take(p.len() as int).drop_first());
    }
    if p.len() > 0 && p[0] == key && path_prefix(p.drop_first(), rest) {
        assert forall|k: int| 0 <= k < p.len() implies path.take(p.len() as int)[k] == p[k] by {
            if k > 0 {
                assert(p.drop_first()[k - 1] == p[k]);
                assert(rest.take(p.len() - 1)[k - 1] == rest[k - 1]);
            }
        }
        assert(path.take(p.len() as int) =~= p);
    }
    if p.len() == 0 {
        assert(path.take(0) =~= p);
    }
}

/// Storing a value one level down: the scalars outside the entry, with
/// those of the sub-table after the store placed under it, are those of the
/// whole table after the store.
proof fn lemma_graft_store(
    m: Map<Seq<Seq<char>>, Scalar>,
    key: Seq<char>,
    rest: Seq<Seq<char>>,
    v: Scalar,
)
    requires
        rest.len() >= 1,
    ensures
        graft(outside(m, key), key, unrelated(below(m, key), rest).insert(rest, v)) =~= unrelated(
            m,
            seq![key] + rest,
        ).insert(seq![key] + rest, v),
{
    let path = seq![key] + rest;
    let b = below(m, key);
    let c = unrelated(b, rest).insert(rest, v);
    let o = outside(m, key);
    let lhs = graft(o, key, c);
    let rhs = unrelated(m, path).insert(path, v);
    assert(path[0] == key);
    assert forall|p: Seq<Seq<char>>|
        #[trigger] lhs.contains_key(p) == rhs.contains_key(p) && (lhs.contains_key(p) ==> lhs[p] == rhs[p]) by {
        lemma_prefix_cons(key, rest, p);
        if p.len() == 0 {
            assert(p != path);
        } else if p[0] != key {
            assert(p != path);
            assert(o.contains_key(p) == m.contains_key(p));
        } else if p.len() == 1 {
            assert(p != path);
            assert(path_prefix(p.drop_first(), rest)) by {
                assert(rest.take(0) =~= p.drop_first());
            }
        } else {
            let q = p.drop_first();
            assert(seq![key] + q =~= p);
            assert((p == path) == (q == rest)) by {
                if q == rest {
                    assert(p =~= path);
                }
                if p == path {
                    assert(q =~= rest);
                }
            }
            assert(b.contains_key(q) == m.contains_key(p));
            if b.contains_key(q) {
                assert(b[q] == m[p]);
            }
        }
    }
    assert(lhs =~= rhs);
}

/// Storing at the last part: the table's scalars outside the entry, with
/// the value stored under it, are its scalars unrelated to the one-part path
/// with the value stored there.
proof fn lemma_leaf_store(m: Map<Seq<Seq<char>>, Scalar>, key: Seq<char>, v: Scalar)
    ensures
        outside(m, key).insert(seq![key], v) =~= unrelated(m, seq![key]).insert(seq![key], v),
{
    let path = seq![key];
    let lhs = outside(m, key).insert(path, v);
    let rhs = unrelated(m, path).insert(path, v);
    assert(seq![key] + Seq::<Seq<char>>::empty() =~= path);
    assert forall|p: Seq<Seq<char>>|
        #[trigger] lhs.contains_key(p) == rhs.contains_key(p) && (lhs.contains_key(p) ==> lhs[p] == rhs[p]) by {
        lemma_prefix_cons(key, Seq::empty(), p);
        if p.len() == 1 && p[0] == key {
            assert(p =~= path);
        }
        if p.len() > 1 && p[0] == key {
            assert(path_prefix(Seq::<Seq<char>>::empty(), p.drop_first())) by {
                assert(p.drop_first().take(0) =~= Seq::<Seq<char>>::empty());
            }
        }
    }
    assert(lhs =~= rhs);
}

/// Store `leaf` under the key path `parts[i..]` below table `t`: every table
/// on the way is created if absent, and replaced by an empty table if the
/// entry there is not a table; the last part receives the leaf.
///
/// Of `t` itself only the entry for `parts[i]` changes; when the path goes
/// deeper, that entry is afterwards a table.  A value leaf is then held at
/// the path, and of the other scalars exactly those stay that neither lead
/// to the path nor lie past it.
fn put_at(t: &mut toml_edit::Table, parts: &Vec<String>, i: usize, leaf: Leaf)
    requires
        i < parts@.len(),
    ensures
        forall|k: Seq<char>|
            k != parts@[i as int]@ ==> (table_keys(*final(t)).contains(k) == table_keys(*old(t)).contains(k)
                && table_tables(*final(t)).contains(k) == table_tables(*old(t)).contains(k)),
        i + 1 < parts@.len() ==> table_keys(*final(t)).contains(parts@[i as int]@) && table_tables(
            *final(t),
        ).contains(parts@[i as int]@),
        leaf matches Leaf::Value(v) ==> table_scalars(*final(t)) == unrelated(
            table_scalars(*old(t)),
            key_parts(parts@).skip(i as int),
        ).insert(key_parts(parts@).skip(i as int), scalar_of(*v)),
    decreases parts@.len() - i,
{
    let ghost path = key_parts(parts@).skip(i as int);
    let ghost m0 = table_scalars(*t);
    let key = parts[i].as_str();
    proof {
        assert(path[0] == key@);
    }
    if i == parts.len() - 1 {
        proof {
            assert(path =~= seq![key@]);
        }
        match leaf {
            Leaf::Item(item) => table_put_item(t, key, item),
            Leaf::Value(v) => {
                match v {
                    TomlValue::Int(n) => table_put_int(t, key, *n),
                    TomlValue::Bool(b) => table_put_bool(t, key, *b),
                    TomlValue::Str(text) => table_put_str(t, key, text.as_str()),
                }
                proof {
                    lemma_leaf_store(m0, key@, scalar_of(*v));
                }
            },
        }
    } else {
        let ghost rest = key_parts(parts@).skip(i + 1);
        proof {
            assert(path =~= seq![key@] + rest);
        }
        if !table_has_key(t, key) || !table_has_table(t, key) {
            table_put_table(t, key);
            proof {
                assert(below(m0, key@) =~= below(outside(m0, key@), key@));
                assert(outside(outside(m0, key@), key@) =~= outside(m0, key@));
            }
        }
        let ghost m1 = table_scalars(*t);
        proof {
            assert(below(m1, key@) =~= below(m0, key@));
            assert(outside(m1, key@) =~= outside(m0, key@));
        }
        let ghost g = leaf;
        let child = table_child(t, key);
        put_at(child, parts, i + 1, leaf);
        proof {
            match g {
                Leaf::Value(v) => lemma_graft_store(m0, key@, rest, scalar_of(*v)),
                Leaf::Item(_) => {},
            }
        }
    }
}

/// Store `leaf` at a dot-separated key path in the TOML text `raw` (an empty
/// text is an empty document) and render the result.
fn patch_text(raw: &str, key_path: &str, leaf: Leaf) -> (r: Result<String, ConfigWriteError>)
    ensures
        r.is_err() <==> (raw@.len() > 0 && !toml_parses(raw@)),
        r matches Err(e) ==> e is Parse,
        r matches Ok(s) ==> exists|d: toml_edit::DocumentMut|
            #[trigger] doc_text(d) == s@ && other_root_entries_kept(
                d,
                if raw@.len() == 0 {
                    Set::<Seq<char>>::empty()
                } else {
                    text_root_keys(raw@)
                },
                if raw@.len() == 0 {
                    Set::<Seq<char>>::empty()
                } else {
                    text_root_tables(raw@)
                },
                split_dots(key_path@),
            ) && (leaf matches Leaf::Value(v) ==> doc_scalars(d) == unrelated(
                if raw@.len() == 0 {
                    Map::empty()
                } else {
                    text_scalars(raw@)
                },
                split_dots(key_path@),
            ).insert(split_dots(key_path@), scalar_of(*v))),
{
    let mut doc = if raw.unicode_len() == 0 {
        new_document()
    } else {
        match parse_document(raw) {
            Ok(d) => d,
            Err(e) => return Err(ConfigWriteError::Parse(e)),
        }
    };
    let parts = split_key_path(key_path);
    proof {
        lemma_split_nonempty(key_path@);
        assert(key_parts(parts@).skip(0) =~= split_dots(key_path@));
    }
    let root = root_table(&mut doc);
    put_at(root, &parts, 0, leaf);
    let text = render_document(&doc);
    assert(other_root_entries_kept(
        doc,
        if raw@.len() == 0 {
            Set::<Seq<char>>::empty()
        } else {
            text_root_keys(raw@)
        },
        if raw@.len() == 0 {
            Set::<Seq<char>>::empty()
        } else {
            text_root_tables(raw@)
        },
        split_dots(key_path@),
    ));
    Ok(text)
}

/// Set the item at a dot-separated key path (`"axis_x.dead_zone"`) in the
/// TOML text `raw`, keeping every other key and comment.  Tables missing on
/// the path are created.  An empty text is an empty document.
///
/// Fails with [`ConfigWriteError::Parse`] exactly when a non-empty text is
/// not valid TOML.  On success the text is `toml_edit`'s rendering of a
/// document whose root entries are those of `raw`, but for the first part
/// of the key path; when the path goes deeper, that part is a table.
pub fn patch_document(raw: &str, key_path: &str, item: toml_edit::Item) -> (r: Result<String, ConfigWriteError>)
    ensures
        r.is_err() <==> (raw@.len() > 0 && !toml_parses(raw@)),
        r matches Err(e) ==> e is Parse,
        r matches Ok(s) ==> exists|d: toml_edit::DocumentMut|
            #[trigger] doc_text(d) == s@ && other_root_entries_kept(
                d,
                if raw@.len() == 0 {
                    Set::<Seq<char>>::empty()
                } else {
                    text_root_keys(raw@)
                },
                if raw@.len() == 0 {
                    Set::<Seq<char>>::empty()
                } else {
                    text_root_tables(raw@)
                },
                split_dots(key_path@),
            ),
{
    patch_text(raw, key_path, Leaf::Item(item))
}

/// Set an integer, boolean or string at a dot-separated key path
/// (`"axis_x.smoothing"`) in the TOML text `raw`, keeping every other key and
/// comment.  Tables missing on the path are created.  An empty text is an
/// empty document.
///
/// Fails with [`ConfigWriteError::Parse`] exactly when a non-empty text is
/// not valid TOML.  On success the text is `toml_edit`'s rendering of a
/// document that holds `value` at the key path; of the other values of
/// `raw` it holds exactly those whose path neither leads to the key path nor
/// lies past it, and its root entries are those of `raw` but for the first
/// part of the key path.
pub fn patch_value(raw: &str, key_path: &str, value: &TomlValue) -> (r: Result<String, ConfigWriteError>)
    ensures
        r.is_err() <==> (raw@.len() > 0 && !toml_parses(raw@)),
        r matches Err(e) ==> e is Parse,
        r matches Ok(s) ==> exists|d: toml_edit::DocumentMut|
            #[trigger] doc_text(d) == s@ && other_root_entries_kept(
                d,
                if raw@.len() == 0 {
                    Set::<Seq<char>>::empty()
                } else {
                    text_root_keys(raw@)
                },
                if raw@.len() == 0 {
                    Set::<Seq<char>>::empty()
                } else {
                    text_root_tables(raw@)
                },
                split_dots(key_path@),
            ) && doc_scalars(d) == unrelated(
                if raw@.len() == 0 {
                    Map::empty()
                } else {
                    text_scalars(raw@)
                },
                split_dots(key_path@),
            ).insert(split_dots(key_path@), scalar_of(*value)),
{
    patch_text(raw, key_path, Leaf::Value(value))
}

// ── Calibration section ───────────────────────────────────────────────────────

/// The config keys of an axis's measured minimum and maximum, in the
/// wizard's axis order (X, Y, Rz, Slider).
pub open spec fn calibration_keys(i: int) -> (Seq<char>, Seq<char>) {
    if i == 0 {
        ("x_min"@, "x_max"@)
    } else if i == 1 {
        ("y_min"@, "y_max"@)
    } else if i == 2 {
        ("rz_min"@, "rz_max"@)
    } else {
        ("slider_min"@, "slider_max"@)
    }
}

/// The config keys of an axis's measured minimum and maximum.
pub fn calibration_key_names(i: usize) -> (k: (&'static str, &'static str))
    requires
        i < 4,
    ensures
        k.0@ == calibration_keys(i as int).0,
        k.1@ == calibration_keys(i as int).1,
{
    if i == 0 {
        ("x_min", "x_max")
    } else if i == 1 {
        ("y_min", "y_max")
    } else if i == 2 {
        ("rz_min", "rz_max")
    } else {
        ("slider_min", "slider_max")
    }
}

/// The eight calibration keys are all different.
proof fn lemma_calibration_keys_distinct()
    ensures
        forall|i: int, j: int|
            0 <= i < 4 && 0 <= j < 4 ==> (#[trigger] calibration_keys(i)).0 != (#[trigger] calibration_keys(j)).1,
        forall|i: int, j: int|
            0 <= i < 4 && 0 <= j < 4 && i != j ==> (#[trigger] calibration_keys(i)).0 != (
            #[trigger] calibration_keys(j)).0 && calibration_keys(i).1 != calibration_keys(j).1,
{
    reveal_strlit("x_min");
    reveal_strlit("x_max");
    reveal_strlit("y_min");
    reveal_strlit("y_max");
    reveal_strlit("rz_min");
    reveal_strlit("rz_max");
    reveal_strlit("slider_min");
    reveal_strlit("slider_max");
    assert("x_min"@[0] != "y_min"@[0]);
    assert("x_max"@[0] != "y_max"@[0]);
    assert("x_min"@.len() != "rz_min"@.len());
    assert("x_max"@.len() != "rz_max"@.len());
    assert("x_min"@.len() != "slider_min"@.len());
    assert("x_max"@.len() != "slider_max"@.len());
    assert("y_min"@.len() != "rz_min"@.len());
    assert("y_max"@.len() != "rz_max"@.len());
    assert("y_min"@.len() != "slider_min"@.len());
    assert("y_max"@.len() != "slider_max"@.len());
    assert("rz_min"@.len() != "slider_min"@.len());
    assert("rz_max"@.len() != "slider_max"@.len());
    assert("x_min"@[3] != "x_max"@[3]);
    assert("x_min"@[3] != "y_max"@[3]);
    assert("x_min"@.len() != "rz_max"@.len());
    assert("x_min"@.len() != "slider_max"@.len());
    assert("y_min"@[3] != "x_max"@[3]);
    assert("y_min"@[3] != "y_max"@[3]);
    assert("y_min"@.len() != "rz_max"@.len());
    assert("y_min"@.len() != "slider_max"@.len());
    assert("rz_min"@.len() != "x_max"@.len());
    assert("rz_min"@.len() != "y_max"@.len());
    assert("rz_min"@[4] != "rz_max"@[4]);
    assert("rz_min"@.len() != "slider_max"@.len());
    assert("slider_min"@.len() != "x_max"@.len());
    assert("slider_min"@.len() != "y_max"@.len());
    assert("slider_min"@.len() != "rz_max"@.len());
    assert("slider_min"@[8] != "slider_max"@[8]);
}

/// The document holds each axis's measured minimum and maximum under the
/// axis's keys of `[calibration]`.
pub open spec fn calibration_saved(d: toml_edit::DocumentMut, ranges: Seq<AxisRange>) -> bool {
    forall|i: int|
        0 <= i < 4 ==> {
            let (kmin, kmax) = #[trigger] calibration_keys(i);
            &&& doc_scalars(d).contains_key(seq!["calibration"@, kmin])
            &&& doc_scalars(d)[seq!["calibration"@, kmin]] == Scalar::Int(ranges[i].min as i64)
            &&& doc_scalars(d).contains_key(seq!["calibration"@, kmax])
            &&& doc_scalars(d)[seq!["calibration"@, kmax]] == Scalar::Int(ranges[i].max as i64)
        }
}

/// Saving the calibration stores each axis's measured minimum under the
/// axis's `_min` key and its maximum under its `_max` key, for X, Y, Rz and
/// Slider (the wizard's axes 0 to 3).
pub proof fn lemma_calibration_saved_keys(d: toml_edit::DocumentMut, ranges: Seq<AxisRange>)
    requires
        calibration_saved(d, ranges),
    ensures
        doc_scalars(d)[seq!["calibration"@, "x_min"@]] == Scalar::Int(ranges[0].min as i64),
        doc_scalars(d)[seq!["calibration"@, "x_max"@]] == Scalar::Int(ranges[0].max as i64),
        doc_scalars(d)[seq!["calibration"@, "y_min"@]] == Scalar::Int(ranges[1].min as i64),
        doc_scalars(d)[seq!["calibration"@, "y_max"@]] == Scalar::Int(ranges[1].max as i64),
        doc_scalars(d)[seq!["calibration"@, "rz_min"@]] == Scalar::Int(ranges[2].min as i64),
        doc_scalars(d)[seq!["calibration"@, "rz_max"@]] == Scalar::Int(ranges[2].max as i64),
        doc_scalars(d)[seq!["calibration"@, "slider_min"@]] == Scalar::Int(ranges[3].min as i64),
        doc_scalars(d)[seq!["calibration"@, "slider_max"@]] == Scalar::Int(ranges[3].max as i64),
        doc_scalars(d).contains_key(seq!["calibration"@, "x_min"@]),
        doc_scalars(d).contains_key(seq!["calibration"@, "x_max"@]),
        doc_scalars(d).contains_key(seq!["calibration"@, "y_min"@]),
        doc_scalars(d).contains_key(seq!["calibration"@, "y_max"@]),
        doc_scalars(d).contains_key(seq!["calibration"@, "rz_min"@]),
        doc_scalars(d).contains_key(seq!["calibration"@, "rz_max"@]),
        doc_scalars(d).contains_key(seq!["calibration"@, "slider_min"@]),
        doc_scalars(d).contains_key(seq!["calibration"@, "slider_max"@]),
{
    assert(calibration_keys(0) == ("x_min"@, "x_max"@));
    assert(calibration_keys(1) == ("y_min"@, "y_max"@));
    assert(calibration_keys(2) == ("rz_min"@, "rz_max"@));
    assert(calibration_keys(3) == ("slider_min"@, "slider_max"@));
}

/// Write the measured ranges into the `[calibration]` section of the TOML
/// text `existing`, keeping all other fields and comments.  The section is
/// created when absent (and replaced when it is not a table) and is always
/// rendered explicitly.
///
/// Fails with [`ConfigWriteError::Parse`] exactly when `existing` is not
/// valid TOML.  On success the text is `toml_edit`'s rendering of a document
/// whose root entries are those of `existing`, with `calibration` a table
/// holding each axis's `*_min` and `*_max`, and whose values outside
/// `[calibration]` are those of `existing`.
pub fn calibration_document(existing: &str, ranges: &[AxisRange; 4]) -> (r: Result<String, ConfigWriteError>)
    ensures
        r.is_ok() == toml_parses(existing@),
        r matches Err(e) ==> e is Parse,
        r matches Ok(s) ==> exists|d: toml_edit::DocumentMut|
            #[trigger] doc_text(d) == s@ && doc_keys(d) == text_root_keys(existing@).insert("calibration"@)
                && doc_tables(d) == text_root_tables(existing@).insert("calibration"@)
                && calibration_saved(d, ranges@)
                && outside(doc_scalars(d), "calibration"@) == outside(text_scalars(existing@), "calibration"@),
{
    let mut doc = match parse_document(existing) {
        Ok(d) => d,
        Err(e) => return Err(ConfigWriteError::Parse(e)),
    };
    let ghost m0 = doc_scalars(doc);
    let root = root_table(&mut doc);
    if !table_has_table(root, "calibration") {
        table_put_table(root, "calibration");
        assert(outside(outside(m0, "calibration"@), "calibration"@) =~= outside(m0, "calibration"@));
    }
    let ghost m1 = table_scalars(*root);
    assert(outside(m1, "calibration"@) =~= outside(m0, "calibration"@));
    let cal = table_child(root, "calibration");
    table_set_implicit(cal, false);
    proof {
        lemma_calibration_keys_distinct();
    }
    let mut i: usize = 0;
    while i < 4
        invariant
            i <= 4,
            forall|j: int, k: int|
                0 <= j < 4 && 0 <= k < 4 ==> (#[trigger] calibration_keys(j)).0 != (#[trigger] calibration_keys(k)).1,
            forall|j: int, k: int|
                0 <= j < 4 && 0 <= k < 4 && j != k ==> (#[trigger] calibration_keys(j)).0 != (
                #[trigger] calibration_keys(k)).0 && calibration_keys(j).1 != calibration_keys(k).1,
            forall|j: int|
                0 <= j < i ==> {
                    let (kmin, kmax) = #[trigger] calibration_keys(j);
                    &&& table_scalars(*cal).contains_key(seq![kmin])
                    &&& table_scalars(*cal)[seq![kmin]] == Scalar::Int(ranges@[j].min as i64)
                    &&& table_scalars(*cal).contains_key(seq![kmax])
                    &&& table_scalars(*cal)[seq![kmax]] == Scalar::Int(ranges@[j].max as i64)
                },
        decreases 4 - i,
    {
        let (kmin, kmax) = calibration_key_names(i);
        table_put_int(cal, kmin, ranges[i].min as i64);
        table_put_int(cal, kmax, ranges[i].max as i64);
        proof {
            let ki = calibration_keys(i as int);
            assert forall|j: int| 0 <= j < i + 1 implies {
                let (a, b) = #[trigger] calibration_keys(j);
                &&& table_scalars(*cal).contains_key(seq![a])
                &&& table_scalars(*cal)[seq![a]] == Scalar::Int(ranges@[j].min as i64)
                &&& table_scalars(*cal).contains_key(seq![b])
                &&& table_scalars(*cal)[seq![b]] == Scalar::Int(ranges@[j].max as i64)
            } by {
                let kj = calibration_keys(j);
                assert(seq![kj.0][0] == kj.0);
                assert(seq![kj.1][0] == kj.1);
                assert(kj.0 != ki.1);
                assert(ki.0 != kj.1);
                if j < i {
                    assert(kj.0 != ki.0 && kj.1 != ki.1);
                }
            }
        }
        i = i + 1;
    }
    let ghost c = table_scalars(*cal);
    let text = render_document(&doc);
    proof {
        assert(doc_scalars(doc) == graft(outside(m1, "calibration"@), "calibration"@, c));
        assert forall|j: int| 0 <= j < 4 implies {
            let (kmin, kmax) = #[trigger] calibration_keys(j);
            &&& doc_scalars(doc).contains_key(seq!["calibration"@, kmin])
            &&& doc_scalars(doc)[seq!["calibration"@, kmin]] == Scalar::Int(ranges@[j].min as i64)
            &&& doc_scalars(doc).contains_key(seq!["calibration"@, kmax])
            &&& doc_scalars(doc)[seq!["calibration"@, kmax]] == Scalar::Int(ranges@[j].max as i64)
        } by {
            let (kmin, kmax) = calibration_keys(j);
            assert(seq!["calibration"@, kmin].drop_first() =~= seq![kmin]);
            assert(seq!["calibration"@, kmax].drop_first() =~= seq![kmax]);
        }
        assert(outside(doc_scalars(doc), "calibration"@) =~= outside(m0, "calibration"@));
    }
    assert(doc_keys(doc) =~= text_root_keys(existing@).insert("calibration"@));
    assert(doc_tables(doc) =~= text_root_tables(existing@).insert("calibration"@));
    Ok(text)
}

} // verus!
