//! The OpenAPI document audit: the checks the materialized daemon API document
//! must pass before it is written out or accepted in a test.
//!
//! The document itself is produced outside this library; the audit works on a
//! plain JSON tree ([`JsonValue`]) that mirrors it value for value.

use vstd::prelude::*;

verus! {

/// A JSON value. Objects keep their entries in document order; numbers keep
/// their textual form (nothing in the audit reads them).
#[derive(Debug)]
pub enum JsonValue {
    Null,
    Bool(bool),
    Number(String),
    String(String),
    Array(Vec<JsonValue>),
    Object(Vec<(String, JsonValue)>),
}

/// The views of a sequence of strings.
pub open spec fn strings_view(s: Seq<String>) -> Seq<Seq<char>> {
    s.map_values(|x: String| x@)
}

/// What one object entry contributes by itself: its value, when the key is
/// `$ref` and the value is a string.
pub open spec fn entry_ref(key: Seq<char>, child: JsonValue) -> Seq<Seq<char>> {
    if key == "$ref"@ {
        match child {
            JsonValue::String(s) => seq![s@],
            _ => seq![],
        }
    } else {
        seq![]
    }
}

/// Every `$ref` string anywhere in `v`, in document order (an entry's own
/// reference comes before those nested in its value).
pub open spec fn refs_of(v: JsonValue) -> Seq<Seq<char>>
    decreases v,
{
    match v {
        JsonValue::Object(entries) => refs_of_entries(entries@),
        JsonValue::Array(items) => refs_of_items(items@),
        _ => seq![],
    }
}

/// Every `$ref` string in a run of object entries, in order.
pub open spec fn refs_of_entries(es: Seq<(String, JsonValue)>) -> Seq<Seq<char>>
    decreases es,
{
    if es.len() == 0 {
        seq![]
    } else {
        refs_of_entries(es.drop_last()) + entry_ref(es.last().0@, es.last().1) + refs_of(
            es.last().1,
        )
    }
}

/// Every `$ref` string in a run of array items, in order.
pub open spec fn refs_of_items(items: Seq<JsonValue>) -> Seq<Seq<char>>
    decreases items,
{
    if items.len() == 0 {
        seq![]
    } else {
        refs_of_items(items.drop_last()) + refs_of(items.last())
    }
}

/// Whether `s` holds exactly the characters of `lit`.
fn string_is(s: &String, lit: &str) -> (b: bool)
    ensures
        b == (s@ == lit@),
{
    let expected = lit.to_owned();
    s.eq(&expected)
}

/// Appends to `out` every `$ref` string anywhere in `value`, in document
/// order.
pub fn collect_refs(value: &JsonValue, out: &mut Vec<String>)
    ensures
        strings_view(final(out)@) == strings_view(old(out)@) + refs_of(*value),
    decreases value,
{
    match value {
        JsonValue::Object(entries) => {
            let n = entries.len();
            let mut i: usize = 0;
            while i < n
                invariant
                    n == entries@.len(),
                    i <= n,
                    *value == JsonValue::Object(*entries),
                    strings_view(out@) == strings_view(old(out)@) + refs_of_entries(
                        entries@.take(i as int),
                    ),
                decreases n - i,
            {
                let ghost before = strings_view(out@);
                let entry = &entries[i];
                let key = &entry.0;
                let child = &entry.1;
                if string_is(key, "$ref") {
                    match child {
                        JsonValue::String(s) => {
                            out.push(s.clone());
                        },
                        _ => {},
                    }
                }
                assert(strings_view(out@) == before + entry_ref(key@, *child));
                proof {
                    assert(decreases_to!(*value => value->Object_0));
                    assert(decreases_to!(*entries => entries@));
                    assert(decreases_to!(entries@ => entries@[i as int]));
                    assert(decreases_to!(entries@[i as int] => entries@[i as int].1));
                    assert(decreases_to!(*value => *child));
                }
                collect_refs(child, out);
                assert(entries@.take(i + 1).drop_last() =~= entries@.take(i as int));
                assert(entries@.take(i + 1).last() == entries@[i as int]);
                i = i + 1;
            }
            assert(entries@.take(n as int) =~= entries@);
        },
        JsonValue::Array(items) => {
            let n = items.len();
            let mut i: usize = 0;
            while i < n
                invariant
                    n == items@.len(),
                    i <= n,
                    *value == JsonValue::Array(*items),
                    strings_view(out@) == strings_view(old(out)@) + refs_of_items(
                        items@.take(i as int),
                    ),
                decreases n - i,
            {
                proof {
                    assert(decreases_to!(*value => value->Array_0));
                    assert(decreases_to!(*items => items@));
                    assert(decreases_to!(items@ => items@[i as int]));
                    assert(decreases_to!(*value => items@[i as int]));
                }
                collect_refs(&items[i], out);
                assert(items@.take(i + 1).drop_last() =~= items@.take(i as int));
                i = i + 1;
            }
            assert(items@.take(n as int) =~= items@);
        },
        _ => {},
    }
}

// ---------------------------------------------------------------------------
// The document audit
// ---------------------------------------------------------------------------

/// The form every `$ref` of the document must take.
pub const SCHEMA_PREFIX: &'static str = "#/components/schemas/";

/// Frozen number of path templates of the daemon API.
pub const EXPECTED_PATHS: usize = 74;

/// Frozen number of operations across all paths of the daemon API.
pub const EXPECTED_OPERATIONS: usize = 82;

/// The daemon HTTP API document. Its content is assembled from the handler
/// registrations; [`validate`] is the audit it must pass once materialized.
pub struct ApiDoc;

/// The value under `key` in a run of object entries (the first such entry).
pub open spec fn lookup(es: Seq<(String, JsonValue)>, key: Seq<char>) -> Option<JsonValue>
    decreases es.len(),
{
    if es.len() == 0 {
        None
    } else if es[0].0@ == key {
        Some(es[0].1)
    } else {
        lookup(es.drop_first(), key)
    }
}

/// The value under `key` when `v` is an object; nothing otherwise.
pub open spec fn get(v: JsonValue, key: Seq<char>) -> Option<JsonValue> {
    match v {
        JsonValue::Object(es) => lookup(es@, key),
        _ => None,
    }
}

/// Whether some entry has the key `key`.
pub open spec fn has_key(es: Seq<(String, JsonValue)>, key: Seq<char>) -> bool {
    exists|i: int| 0 <= i < es.len() && #[trigger] es[i].0@ == key
}

/// The entries of `components.schemas`, when that is an object.
pub open spec fn schema_entries(v: JsonValue) -> Option<Seq<(String, JsonValue)>> {
    match get(v, "components"@) {
        Some(c) => match get(c, "schemas"@) {
            Some(JsonValue::Object(m)) => Some(m@),
            _ => None,
        },
        None => None,
    }
}

/// The component name a reference points at, when it has the schema form.
pub open spec fn schema_name(r: Seq<char>) -> Option<Seq<char>> {
    if SCHEMA_PREFIX@.is_prefix_of(r) {
        Some(r.skip(SCHEMA_PREFIX@.len() as int))
    } else {
        None
    }
}

/// The first reference that does not have the schema form.
pub open spec fn first_foreign_ref(refs: Seq<Seq<char>>) -> Option<Seq<char>>
    decreases refs.len(),
{
    if refs.len() == 0 {
        None
    } else if schema_name(refs[0]) is None {
        Some(refs[0])
    } else {
        first_foreign_ref(refs.drop_first())
    }
}

/// The names that schema references point at but no component declares,
/// each once, in order of first appearance.
pub open spec fn dangling_names(refs: Seq<Seq<char>>, schemas: Seq<(String, JsonValue)>) -> Seq<
    Seq<char>,
>
    decreases refs.len(),
{
    if refs.len() == 0 {
        seq![]
    } else {
        let earlier = dangling_names(refs.drop_last(), schemas);
        match schema_name(refs.last()) {
            Some(name) => if !has_key(schemas, name) && !earlier.contains(name) {
                earlier.push(name)
            } else {
                earlier
            },
            None => earlier,
        }
    }
}

/// Whether a key names an HTTP method of a path item.
pub open spec fn is_http_method(k: Seq<char>) -> bool {
    ||| k == "get"@
    ||| k == "put"@
    ||| k == "post"@
    ||| k == "delete"@
    ||| k == "patch"@
    ||| k == "head"@
    ||| k == "options"@
}

/// The number of entries of a path item that are HTTP methods.
pub open spec fn method_count(es: Seq<(String, JsonValue)>) -> nat
    decreases es.len(),
{
    if es.len() == 0 {
        0
    } else {
        method_count(es.drop_last()) + if is_http_method(es.last().0@) {
            1nat
        } else {
            0nat
        }
    }
}

/// The number of operations across path items (items that are not objects
/// count none).
pub open spec fn operation_count(paths: Seq<(String, JsonValue)>) -> nat
    decreases paths.len(),
{
    if paths.len() == 0 {
        0
    } else {
        operation_count(paths.drop_last()) + match paths.last().1 {
            JsonValue::Object(item) => method_count(item@),
            _ => 0nat,
        }
    }
}

/// A count as reported by the audit: capped at `usize::MAX`.
pub open spec fn capped(n: nat) -> nat {
    if n > usize::MAX {
        usize::MAX as nat
    } else {
        n
    }
}

/// Why a document fails the audit.
#[derive(Debug)]
pub enum DocDefect {
    /// `components.schemas` is missing or not an object.
    MissingSchemas,
    /// The document holds no `$ref` at all.
    NoRefs,
    /// The first reference that is not of the form `#/components/schemas/NAME`.
    NonSchemaRef(String),
    /// Names referenced but not declared under `components.schemas`.
    DanglingRefs(Vec<String>),
    /// The bare generic `ApiEnvelope` leaked in as a component.
    BareGenericEnvelope,
    /// `paths` is missing or not an object.
    MissingPaths,
    /// The number of path templates found, when it is not the frozen one.
    PathCount(usize),
    /// The number of operations found, when it is not the frozen one.
    OperationCount(usize),
}

/// The mathematical content of a [`DocDefect`].
pub enum DocDefectView {
    MissingSchemas,
    NoRefs,
    NonSchemaRef(Seq<char>),
    DanglingRefs(Seq<Seq<char>>),
    BareGenericEnvelope,
    MissingPaths,
    PathCount(nat),
    OperationCount(nat),
}

impl View for DocDefect {
    type V = DocDefectView;

    open spec fn view(&self) -> DocDefectView {
        match self {
            DocDefect::MissingSchemas => DocDefectView::MissingSchemas,
            DocDefect::NoRefs => DocDefectView::NoRefs,
            DocDefect::NonSchemaRef(r) => DocDefectView::NonSchemaRef(r@),
            DocDefect::DanglingRefs(names) => DocDefectView::DanglingRefs(strings_view(names@)),
            DocDefect::BareGenericEnvelope => DocDefectView::BareGenericEnvelope,
            DocDefect::MissingPaths => DocDefectView::MissingPaths,
            DocDefect::PathCount(n) => DocDefectView::PathCount(*n as nat),
            DocDefect::OperationCount(n) => DocDefectView::OperationCount(*n as nat),
        }
    }
}

/// The verdict of the audit on a document: the path and operation counts when
/// it passes, else the first defect in this order: schemas missing, no
/// reference, a reference of another form, dangling references, the bare
/// generic envelope, paths missing, wrong path count, wrong operation count.
pub open spec fn audit(v: JsonValue) -> Result<(nat, nat), DocDefectView> {
    match schema_entries(v) {
        None => Err(DocDefectView::MissingSchemas),
        Some(schemas) => {
            let refs = refs_of(v);
            if refs.len() == 0 {
                Err(DocDefectView::NoRefs)
            } else if first_foreign_ref(refs) is Some {
                Err(DocDefectView::NonSchemaRef(first_foreign_ref(refs)->0))
            } else if dangling_names(refs, schemas).len() > 0 {
                Err(DocDefectView::DanglingRefs(dangling_names(refs, schemas)))
            } else if has_key(schemas, "ApiEnvelope"@) {
                Err(DocDefectView::BareGenericEnvelope)
            } else {
                match get(v, "paths"@) {
                    Some(JsonValue::Object(paths)) => if paths@.len() != EXPECTED_PATHS {
                        Err(DocDefectView::PathCount(paths@.len()))
                    } else if operation_count(paths@) != EXPECTED_OPERATIONS {
                        Err(DocDefectView::OperationCount(capped(operation_count(paths@))))
                    } else {
                        Ok((paths@.len(), operation_count(paths@)))
                    },
                    _ => Err(DocDefectView::MissingPaths),
                }
            }
        },
    }
}

/// The value under `key` when `v` is an object.
fn get_field<'a>(v: &'a JsonValue, key: &str) -> (r: Option<&'a JsonValue>)
    ensures
        match r {
            Some(x) => get(*v, key@) == Some(*x),
            None => get(*v, key@) is None,
        },
{
    match v {
        JsonValue::Object(es) => {
            let n = es.len();
            let mut i: usize = 0;
            assert(es@.skip(0) =~= es@);
            while i < n
                invariant
                    n == es@.len(),
                    i <= n,
                    *v == JsonValue::Object(*es),
                    lookup(es@, key@) == lookup(es@.skip(i as int), key@),
                decreases n - i,
            {
                assert(es@.skip(i as int)[0] == es@[i as int]);
                if string_is(&es[i].0, key) {
                    return Some(&es[i].1);
                }
                assert(es@.skip(i as int).drop_first() =~= es@.skip(i + 1));
                i = i + 1;
            }
            None
        },
        _ => None,
    }
}

/// Whether some entry has the key `key`.
fn contains_key(es: &Vec<(String, JsonValue)>, key: &String) -> (b: bool)
    ensures
        b == has_key(es@, key@),
{
    let n = es.len();
    let mut i: usize = 0;
    while i < n
        invariant
            n == es@.len(),
            i <= n,
            forall|j: int| 0 <= j < i ==> es@[j].0@ != key@,
        decreases n - i,
    {
        if es[i].0.eq(key) {
            return true;
        }
        i = i + 1;
    }
    false
}

/// Whether `names` holds `name`.
fn contains_name(names: &Vec<String>, name: &String) -> (b: bool)
    ensures
        b == strings_view(names@).contains(name@),
{
    let n = names.len();
    let mut i: usize = 0;
    while i < n
        invariant
            n == names@.len(),
            i <= n,
            forall|j: int| 0 <= j < i ==> names@[j]@ != name@,
        decreases n - i,
    {
        if names[i].eq(name) {
            assert(strings_view(names@)[i as int] == name@);
            return true;
        }
        i = i + 1;
    }
    false
}

/// The component name `r` points at, when it has the schema form.
fn strip_schema_prefix(r: &String) -> (name: Option<String>)
    ensures
        match name {
            Some(nm) => schema_name(r@) == Some(nm@),
            None => schema_name(r@) is None,
        },
{
    let prefix: &str = SCHEMA_PREFIX;
    assert(prefix@ == SCHEMA_PREFIX@);
    let plen = prefix.unicode_len();
    let rs = r.as_str();
    let rlen = rs.unicode_len();
    if rlen < plen {
        assert(!SCHEMA_PREFIX@.is_prefix_of(r@));
        return None;
    }
    let mut i: usize = 0;
    while i < plen
        invariant
            plen == prefix@.len(),
            prefix@ == SCHEMA_PREFIX@,
            rlen == rs@.len(),
            rs@ == r@,
            plen <= rlen,
            i <= plen,
            forall|j: int| 0 <= j < i ==> prefix@[j] == rs@[j],
        decreases plen - i,
    {
        if prefix.get_char(i) != rs.get_char(i) {
            assert(rs@.subrange(0, plen as int)[i as int] == rs@[i as int]);
            assert(prefix@ != rs@.subrange(0, plen as int));
            assert(!SCHEMA_PREFIX@.is_prefix_of(r@));
            return None;
        }
        i = i + 1;
    }
    assert(prefix@ =~= rs@.subrange(0, plen as int));
    let rest = rs.substring_char(plen, rlen);
    assert(rest@ =~= r@.skip(plen as int));
    Some(rest.to_owned())
}

/// The number of entries of a path item that are HTTP methods.
fn count_methods(item: &Vec<(String, JsonValue)>) -> (c: usize)
    ensures
        c == method_count(item@),
{
    let n = item.len();
    let mut count: usize = 0;
    let mut i: usize = 0;
    while i < n
        invariant
            n == item@.len(),
            i <= n,
            count == method_count(item@.take(i as int)),
            count <= i,
        decreases n - i,
    {
        let key = &item[i].0;
        let is_method = string_is(key, "get") || string_is(key, "put") || string_is(key, "post")
            || string_is(key, "delete") || string_is(key, "patch") || string_is(key, "head")
            || string_is(key, "options");
        assert(item@.take(i + 1).drop_last() =~= item@.take(i as int));
        if is_method {
            count = count + 1;
        }
        i = i + 1;
    }
    assert(item@.take(n as int) =~= item@);
    count
}

/// The number of operations across path items, capped at `usize::MAX`.
fn count_operations(paths: &Vec<(String, JsonValue)>) -> (c: usize)
    ensures
        c == capped(operation_count(paths@)),
{
    let n = paths.len();
    let mut total: usize = 0;
    let mut i: usize = 0;
    while i < n
        invariant
            n == paths@.len(),
            i <= n,
            total == capped(operation_count(paths@.take(i as int))),
        decreases n - i,
    {
        let here = match &paths[i].1 {
            JsonValue::Object(item) => count_methods(item),
            _ => 0,
        };
        assert(paths@.take(i + 1).drop_last() =~= paths@.take(i as int));
        total = total.saturating_add(here);
        i = i + 1;
    }
    assert(paths@.take(n as int) =~= paths@);
    total
}

/// Walks the references in order: the first one not of the schema form, or
/// else the dangling names.
fn scan_refs(refs: &Vec<String>, schemas: &Vec<(String, JsonValue)>) -> (r: Result<
    Vec<String>,
    String,
>)
    ensures
        match r {
            Ok(d) => first_foreign_ref(strings_view(refs@)) is None && strings_view(d@)
                == dangling_names(strings_view(refs@), schemas@),
            Err(f) => first_foreign_ref(strings_view(refs@)) == Some(f@),
        },
{
    let ghost all = strings_view(refs@);
    let mut dangling: Vec<String> = Vec::new();
    let n = refs.len();
    let mut i: usize = 0;
    assert(all.skip(0) =~= all);
    assert(all.take(0) =~= Seq::<Seq<char>>::empty());
    while i < n
        invariant
            n == refs@.len(),
            all == strings_view(refs@),
            i <= n,
            first_foreign_ref(all) == first_foreign_ref(all.skip(i as int)),
            strings_view(dangling@) == dangling_names(all.take(i as int), schemas@),
        decreases n - i,
    {
        let r = &refs[i];
        assert(all.skip(i as int)[0] == r@);
        assert(all.take(i + 1).drop_last() =~= all.take(i as int));
        assert(all.take(i + 1).last() == r@);
        match strip_schema_prefix(r) {
            Some(name) => {
                if !contains_key(schemas, &name) && !contains_name(&dangling, &name) {
                    dangling.push(name);
                    assert(strings_view(dangling@) =~= dangling_names(
                        all.take(i as int),
                        schemas@,
                    ).push(name@));
                }
            },
            None => {
                assert(all.skip(i as int).len() > 0);
                return Err(r.clone());
            },
        }
        assert(all.skip(i as int).drop_first() =~= all.skip(i + 1));
        i = i + 1;
    }
    assert(all.take(n as int) =~= all);
    assert(all.skip(n as int).len() == 0);
    Ok(dangling)
}

/// Checks a materialized API document: every `$ref` must point at a declared
/// component schema, the bare generic `ApiEnvelope` must not be a component,
/// and the path and operation counts must be the frozen ones. Returns those
/// counts, or the first defect found.
pub fn validate(value: &JsonValue) -> (r: Result<(usize, usize), DocDefect>)
    ensures
        match r {
            Ok((p, o)) => audit(*value) == Ok::<(nat, nat), DocDefectView>((p as nat, o as nat)),
            Err(d) => audit(*value) == Err::<(nat, nat), DocDefectView>(d@),
        },
{
    let schemas = match get_field(value, "components") {
        Some(components) => match get_field(components, "schemas") {
            Some(JsonValue::Object(m)) => m,
            _ => {
                return Err(DocDefect::MissingSchemas);
            },
        },
        None => {
            return Err(DocDefect::MissingSchemas);
        },
    };
    let mut refs: Vec<String> = Vec::new();
    collect_refs(value, &mut refs);
    assert(strings_view(refs@) =~= refs_of(*value));
    if refs.len() == 0 {
        return Err(DocDefect::NoRefs);
    }
    let dangling = match scan_refs(&refs, schemas) {
        Ok(d) => d,
        Err(r) => {
            return Err(DocDefect::NonSchemaRef(r));
        },
    };
    if dangling.len() > 0 {
        return Err(DocDefect::DanglingRefs(dangling));
    }
    let envelope = "ApiEnvelope".to_owned();
    if contains_key(schemas, &envelope) {
        return Err(DocDefect::BareGenericEnvelope);
    }
    let paths = match get_field(value, "paths") {
        Some(JsonValue::Object(p)) => p,
        _ => {
            return Err(DocDefect::MissingPaths);
        },
    };
    let path_count = paths.len();
    if path_count != EXPECTED_PATHS {
        return Err(DocDefect::PathCount(path_count));
    }
    let operations = count_operations(paths);
    if operations != EXPECTED_OPERATIONS {
        return Err(DocDefect::OperationCount(operations));
    }
    Ok((path_count, operations))
}

// ---------------------------------------------------------------------------
// Laws of the audit
// ---------------------------------------------------------------------------

/// Whether reference `r` points at a component that `schemas` does not declare.
pub open spec fn unresolved(r: Seq<char>, schemas: Seq<(String, JsonValue)>, name: Seq<char>) -> bool {
    schema_name(r) == Some(name) && !has_key(schemas, name)
}

proof fn lemma_no_foreign_ref(refs: Seq<Seq<char>>)
    requires
        first_foreign_ref(refs) is None,
    ensures
        forall|i: int| 0 <= i < refs.len() ==> #[trigger] schema_name(refs[i]) is Some,
    decreases refs.len(),
{
    if refs.len() > 0 {
        lemma_no_foreign_ref(refs.drop_first());
        assert forall|i: int| 0 <= i < refs.len() implies #[trigger] schema_name(refs[i]) is Some by {
            if i > 0 {
                assert(refs[i] == refs.drop_first()[i - 1]);
            }
        }
    }
}

proof fn lemma_dangling_names_exact(refs: Seq<Seq<char>>, schemas: Seq<(String, JsonValue)>)
    ensures
        dangling_names(refs, schemas).no_duplicates(),
        forall|name: Seq<char>|
            dangling_names(refs, schemas).contains(name) <==> exists|i: int|
                0 <= i < refs.len() && #[trigger] unresolved(refs[i], schemas, name),
    decreases refs.len(),
{
    if refs.len() > 0 {
        let earlier = refs.drop_last();
        lemma_dangling_names_exact(earlier, schemas);
        let d = dangling_names(refs, schemas);
        let de = dangling_names(earlier, schemas);
        let last = refs.last();
        assert(refs[refs.len() - 1] == last);
        let grows = schema_name(last) is Some && !has_key(schemas, schema_name(last)->0)
            && !de.contains(schema_name(last)->0);
        if grows {
            assert(d == de.push(schema_name(last)->0));
        } else {
            assert(d == de);
        }
        assert forall|name: Seq<char>|
            d.contains(name) <==> exists|i: int|
                0 <= i < refs.len() && #[trigger] unresolved(refs[i], schemas, name) by {
            if d.contains(name) {
                if de.contains(name) {
                    let i = choose|i: int| 0 <= i < earlier.len() && #[trigger] unresolved(earlier[i], schemas, name);
                    assert(refs[i] == earlier[i]);
                    assert(unresolved(refs[i], schemas, name));
                } else {
                    assert(grows);
                    let k = choose|k: int| 0 <= k < d.len() && d[k] == name;
                    assert(k == de.len());
                    assert(name == schema_name(last)->0);
                    assert(unresolved(refs[refs.len() - 1], schemas, name));
                }
            }
            if exists|i: int| 0 <= i < refs.len() && #[trigger] unresolved(refs[i], schemas, name) {
                let i = choose|i: int| 0 <= i < refs.len() && #[trigger] unresolved(refs[i], schemas, name);
                if i < refs.len() - 1 {
                    assert(earlier[i] == refs[i]);
                    assert(unresolved(earlier[i], schemas, name));
                    assert(de.contains(name));
                    if grows {
                        assert(d[de.len() as int] == schema_name(last)->0);
                    }
                    let k = choose|k: int| 0 <= k < de.len() && de[k] == name;
                    assert(d[k] == name);
                } else {
                    assert(last == refs[i]);
                    if !de.contains(name) {
                        assert(grows);
                        assert(d[de.len() as int] == name);
                    } else {
                        let k = choose|k: int| 0 <= k < de.len() && de[k] == name;
                        assert(d[k] == name);
                    }
                }
            }
        }
    }
}

/// The dangling references the audit reports are exactly the names that some
/// reference points at and no component declares, each listed once.
pub proof fn law_dangling_names_are_exactly_the_unresolved(
    refs: Seq<Seq<char>>,
    schemas: Seq<(String, JsonValue)>,
)
    ensures
        dangling_names(refs, schemas).no_duplicates(),
        forall|name: Seq<char>|
            dangling_names(refs, schemas).contains(name) <==> exists|i: int|
                0 <= i < refs.len() && #[trigger] unresolved(refs[i], schemas, name),
{
    lemma_dangling_names_exact(refs, schemas);
}

proof fn lemma_foreign_ref_exists(refs: Seq<Seq<char>>)
    requires
        first_foreign_ref(refs) is Some,
    ensures
        exists|i: int| 0 <= i < refs.len() && #[trigger] schema_name(refs[i]) is None,
    decreases refs.len(),
{
    if schema_name(refs[0]) is Some {
        lemma_foreign_ref_exists(refs.drop_first());
        let i = choose|i: int|
            0 <= i < refs.drop_first().len() && #[trigger] schema_name(refs.drop_first()[i]) is None;
        assert(refs[i + 1] == refs.drop_first()[i]);
    } else {
        assert(schema_name(refs[0]) is None);
    }
}

/// The seven HTTP methods of a path item each count as one operation, and a
/// path item never counts more operations than it has entries: appending an
/// entry keyed `get`, `put`, `post`, `delete`, `patch`, `head` or `options`
/// adds exactly one operation (so `{"get": .., "delete": ..}` counts two).
pub proof fn law_each_http_method_is_one_operation(
    es: Seq<(String, JsonValue)>,
    e: (String, JsonValue),
)
    ensures
        method_count(es) <= es.len(),
        (e.0@ == "get"@ || e.0@ == "put"@ || e.0@ == "post"@ || e.0@ == "delete"@ || e.0@
            == "patch"@ || e.0@ == "head"@ || e.0@ == "options"@) ==> method_count(es.push(e))
            == method_count(es) + 1,
        method_count(es.push(e)) <= method_count(es) + 1,
    decreases es.len(),
{
    if es.len() > 0 {
        law_each_http_method_is_one_operation(es.drop_last(), e);
    }
    assert(es.push(e).drop_last() =~= es);
}

/// The operations of the document are the sum over its path items: appending
/// a path item whose value is an object adds exactly that item's operations,
/// and anything else adds none.
pub proof fn law_operations_add_up_over_paths(
    paths: Seq<(String, JsonValue)>,
    p: (String, JsonValue),
)
    ensures
        operation_count(paths.push(p)) == operation_count(paths) + match p.1 {
            JsonValue::Object(item) => method_count(item@),
            _ => 0nat,
        },
{
    assert(paths.push(p).drop_last() =~= paths);
}

/// References are collected at every depth, whatever the keys on the way:
/// appending an entry `(k, child)` to an object keeps the references found so
/// far, in order, and adds every reference inside `child`, after the entry's
/// own value when `k` is `$ref` and that value is a string. An object with a
/// single entry whose key is not `$ref` has exactly the references of its
/// value; the same holds of array items.
pub proof fn law_references_are_collected_at_every_depth(
    es: Seq<(String, JsonValue)>,
    e: (String, JsonValue),
    items: Seq<JsonValue>,
    item: JsonValue,
)
    ensures
        refs_of_entries(es).is_prefix_of(refs_of_entries(es.push(e))),
        forall|i: int|
            0 <= i < refs_of(e.1).len() ==> refs_of_entries(es.push(e)).contains(
                #[trigger] refs_of(e.1)[i],
            ),
        e.0@ == "$ref"@ ==> match e.1 {
            JsonValue::String(s) => refs_of_entries(es.push(e)).contains(s@),
            _ => true,
        },
        e.0@ != "$ref"@ ==> refs_of_entries(seq![e]) == refs_of(e.1),
        refs_of_items(items).is_prefix_of(refs_of_items(items.push(item))),
        refs_of_items(items.push(item)) == refs_of_items(items) + refs_of(item),
        refs_of_items(seq![item]) == refs_of(item),
{
    assert(es.push(e).drop_last() =~= es);
    assert(items.push(item).drop_last() =~= items);
    let whole = refs_of_entries(es.push(e));
    let before = refs_of_entries(es);
    let own = entry_ref(e.0@, e.1);
    assert(whole == before + own + refs_of(e.1));
    assert forall|i: int| 0 <= i < refs_of(e.1).len() implies whole.contains(
        #[trigger] refs_of(e.1)[i],
    ) by {
        assert(whole[before.len() + own.len() + i] == refs_of(e.1)[i]);
    }
    if e.0@ == "$ref"@ {
        if let JsonValue::String(s) = e.1 {
            assert(whole[before.len() as int] == s@);
        }
    }
    assert(before =~= whole.subrange(0, before.len() as int));
    assert(seq![e].drop_last() =~= Seq::<(String, JsonValue)>::empty());
    assert(seq![item].drop_last() =~= Seq::<JsonValue>::empty());
    assert(refs_of_entries(Seq::<(String, JsonValue)>::empty()) == Seq::<Seq<char>>::empty());
    assert(refs_of_items(Seq::<JsonValue>::empty()) == Seq::<Seq<char>>::empty());
    assert(seq![e].last() == e);
    assert(seq![item].last() == item);
    if e.0@ != "$ref"@ {
        assert(entry_ref(e.0@, e.1) == Seq::<Seq<char>>::empty());
        assert(refs_of_entries(seq![e]) =~= refs_of(e.1));
    }
    assert(refs_of_items(seq![item]) =~= refs_of(item));
    assert(refs_of_items(items) =~= refs_of_items(items.push(item)).subrange(
        0,
        refs_of_items(items).len() as int,
    ));
}

/// A reference has the schema form exactly when it is
/// `#/components/schemas/` followed by the component's name.
pub proof fn law_schema_references_name_a_component(r: Seq<char>, name: Seq<char>)
    ensures
        schema_name(r) == Some(name) <==> r == "#/components/schemas/"@ + name,
{
    reveal_strlit("#/components/schemas/");
    assert(SCHEMA_PREFIX@ == "#/components/schemas/"@);
    let p = "#/components/schemas/"@;
    if r == p + name {
        assert(p.is_prefix_of(r));
        assert(r.skip(p.len() as int) =~= name);
    }
    if schema_name(r) == Some(name) {
        assert(r =~= p + name);
    }
}

proof fn lemma_first_foreign_ref_at(refs: Seq<Seq<char>>, i: int)
    requires
        0 <= i < refs.len(),
        schema_name(refs[i]) is None,
        forall|j: int| 0 <= j < i ==> #[trigger] schema_name(refs[j]) is Some,
    ensures
        first_foreign_ref(refs) == Some(refs[i]),
    decreases i,
{
    if i > 0 {
        assert(schema_name(refs[0]) is Some);
        assert forall|j: int| 0 <= j < i - 1 implies #[trigger] schema_name(
            refs.drop_first()[j],
        ) is Some by {
            assert(refs.drop_first()[j] == refs[j + 1]);
        }
        lemma_first_foreign_ref_at(refs.drop_first(), i - 1);
    }
}

/// Whether every reference of `refs` has the schema form.
pub open spec fn all_schema_refs(refs: Seq<Seq<char>>) -> bool {
    forall|j: int| 0 <= j < refs.len() ==> #[trigger] schema_name(refs[j]) is Some
}

/// Whether every schema reference of `refs` names a component of `schemas`.
pub open spec fn all_resolved(refs: Seq<Seq<char>>, schemas: Seq<(String, JsonValue)>) -> bool {
    forall|j: int|
        0 <= j < refs.len() ==> #[trigger] schema_name(refs[j]) is Some && has_key(
            schemas,
            schema_name(refs[j])->0,
        )
}

/// The audit reports the first defect, in this order: `components.schemas`
/// missing; no reference at all; a reference not of the schema form (the
/// earliest one in document order); references to undeclared components
/// (each such name once, no other); the bare generic `ApiEnvelope` declared;
/// `paths` missing; a path count other than 74; an operation count other
/// than 82.
pub proof fn law_audit_reports_the_first_defect(v: JsonValue, i: int)
    ensures
        schema_entries(v) is None ==> audit(v) == Err::<(nat, nat), DocDefectView>(
            DocDefectView::MissingSchemas,
        ),
        schema_entries(v) is Some && refs_of(v).len() == 0 ==> audit(v) == Err::<
            (nat, nat),
            DocDefectView,
        >(DocDefectView::NoRefs),
        schema_entries(v) is Some && 0 <= i < refs_of(v).len() && schema_name(refs_of(v)[i]) is None
            && (forall|j: int| 0 <= j < i ==> #[trigger] schema_name(refs_of(v)[j]) is Some)
            ==> audit(v) == Err::<(nat, nat), DocDefectView>(
            DocDefectView::NonSchemaRef(refs_of(v)[i]),
        ),
        schema_entries(v) is Some && refs_of(v).len() > 0 && all_schema_refs(refs_of(v))
            && !all_resolved(refs_of(v), schema_entries(v)->0) ==> (audit(v) matches Err(
            DocDefectView::DanglingRefs(d),
        ) && d.len() > 0 && d.no_duplicates() && forall|name: Seq<char>|
            d.contains(name) <==> exists|k: int|
                0 <= k < refs_of(v).len() && #[trigger] unresolved(
                    refs_of(v)[k],
                    schema_entries(v)->0,
                    name,
                )),
        schema_entries(v) is Some && refs_of(v).len() > 0 && all_resolved(
            refs_of(v),
            schema_entries(v)->0,
        ) ==> {
            if has_key(schema_entries(v)->0, "ApiEnvelope"@) {
                audit(v) == Err::<(nat, nat), DocDefectView>(DocDefectView::BareGenericEnvelope)
            } else {
                match get(v, "paths"@) {
                    Some(JsonValue::Object(paths)) => if paths@.len() != 74 {
                        audit(v) == Err::<(nat, nat), DocDefectView>(
                            DocDefectView::PathCount(paths@.len()),
                        )
                    } else if operation_count(paths@) != 82 {
                        audit(v) == Err::<(nat, nat), DocDefectView>(
                            DocDefectView::OperationCount(capped(operation_count(paths@))),
                        )
                    } else {
                        audit(v) == Ok::<(nat, nat), DocDefectView>((74, 82))
                    },
                    _ => audit(v) == Err::<(nat, nat), DocDefectView>(DocDefectView::MissingPaths),
                }
            }
        },
{
    if let Some(schemas) = schema_entries(v) {
        let refs = refs_of(v);
        lemma_dangling_names_exact(refs, schemas);
        if 0 <= i < refs.len() && schema_name(refs[i]) is None && (forall|j: int|
            0 <= j < i ==> #[trigger] schema_name(refs[j]) is Some) {
            lemma_first_foreign_ref_at(refs, i);
        }
        if refs.len() > 0 && all_schema_refs(refs) {
            if first_foreign_ref(refs) is Some {
                lemma_foreign_ref_exists(refs);
            }
            assert(first_foreign_ref(refs) is None);
            if !all_resolved(refs, schemas) {
                let k = choose|k: int|
                    !(0 <= k < refs.len() ==> #[trigger] schema_name(refs[k]) is Some && has_key(
                        schemas,
                        schema_name(refs[k])->0,
                    ));
                let name = schema_name(refs[k])->0;
                assert(unresolved(refs[k], schemas, name));
                assert(dangling_names(refs, schemas).contains(name));
            }
        }
        if refs.len() > 0 && all_resolved(refs, schemas) {
            if first_foreign_ref(refs) is Some {
                lemma_foreign_ref_exists(refs);
                let k = choose|k: int| 0 <= k < refs.len() && #[trigger] schema_name(refs[k]) is None;
                assert(schema_name(refs[k]) is Some);
            }
            if dangling_names(refs, schemas).len() > 0 {
                let name = dangling_names(refs, schemas)[0];
                assert(dangling_names(refs, schemas).contains(name));
                let k = choose|k: int| 0 <= k < refs.len() && #[trigger] unresolved(refs[k], schemas, name);
                assert(schema_name(refs[k]) is Some);
            }
        }
    }
}

proof fn lemma_lookup_first(es: Seq<(String, JsonValue)>, key: Seq<char>, i: int)
    requires
        0 <= i < es.len(),
        es[i].0@ == key,
        forall|j: int| 0 <= j < i ==> #[trigger] es[j].0@ != key,
    ensures
        lookup(es, key) == Some(es[i].1),
    decreases i,
{
    if i > 0 {
        assert forall|j: int| 0 <= j < i - 1 implies #[trigger] es.drop_first()[j].0@ != key by {
            assert(es.drop_first()[j] == es[j + 1]);
        }
        lemma_lookup_first(es.drop_first(), key, i - 1);
    }
}

proof fn lemma_lookup_absent(es: Seq<(String, JsonValue)>, key: Seq<char>)
    requires
        !has_key(es, key),
    ensures
        lookup(es, key) is None,
    decreases es.len(),
{
    if es.len() > 0 {
        assert(es[0].0@ != key);
        assert forall|j: int| 0 <= j < es.drop_first().len() implies #[trigger] es.drop_first()[j].0@
            != key by {
            assert(es.drop_first()[j] == es[j + 1]);
        }
        lemma_lookup_absent(es.drop_first(), key);
    }
}

/// A field is read from the first entry with its key, and is absent when no
/// entry has it; the schemas are the object under `components` then
/// `schemas`.
pub proof fn law_fields_are_read_by_key(es: Seq<(String, JsonValue)>, key: Seq<char>, i: int, v: JsonValue)
    ensures
        0 <= i < es.len() && es[i].0@ == key && (forall|j: int|
            0 <= j < i ==> #[trigger] es[j].0@ != key) ==> lookup(es, key) == Some(es[i].1),
        !has_key(es, key) ==> lookup(es, key) is None,
        schema_entries(v) == match get(v, "components"@) {
            Some(c) => match get(c, "schemas"@) {
                Some(JsonValue::Object(m)) => Some(m@),
                _ => None,
            },
            None => None::<Seq<(String, JsonValue)>>,
        },
{
    if 0 <= i < es.len() && es[i].0@ == key && (forall|j: int|
        0 <= j < i ==> #[trigger] es[j].0@ != key) {
        lemma_lookup_first(es, key, i);
    }
    if !has_key(es, key) {
        lemma_lookup_absent(es, key);
    }
}

/// A document with `$ref` integrity: it declares `components.schemas`, holds
/// at least one reference, every reference has the form
/// `#/components/schemas/NAME` with NAME a declared component, the bare
/// generic `ApiEnvelope` is not a component, and `paths` is an object with
/// exactly the frozen numbers of path templates and operations.
pub open spec fn sound_document(v: JsonValue) -> bool {
    &&& schema_entries(v) is Some
    &&& refs_of(v).len() > 0
    &&& forall|i: int|
        0 <= i < refs_of(v).len() ==> #[trigger] schema_name(refs_of(v)[i]) is Some && has_key(
            schema_entries(v)->0,
            schema_name(refs_of(v)[i])->0,
        )
    &&& !has_key(schema_entries(v)->0, "ApiEnvelope"@)
    &&& get(v, "paths"@) matches Some(JsonValue::Object(paths)) && paths@.len() == EXPECTED_PATHS
        && operation_count(paths@) == EXPECTED_OPERATIONS
}

/// The audit accepts exactly the documents with `$ref` integrity and the
/// frozen cardinality, and then reports the frozen path and operation counts.
pub proof fn law_audit_accepts_exactly_sound_documents(v: JsonValue)
    ensures
        audit(v) is Ok <==> sound_document(v),
        audit(v) is Ok ==> audit(v) == Ok::<(nat, nat), DocDefectView>(
            (EXPECTED_PATHS as nat, EXPECTED_OPERATIONS as nat),
        ),
        audit(v) is Ok ==> audit(v) == Ok::<(nat, nat), DocDefectView>((74, 82)),
{
    if let Some(schemas) = schema_entries(v) {
        let refs = refs_of(v);
        lemma_dangling_names_exact(refs, schemas);
        if first_foreign_ref(refs) is None {
            lemma_no_foreign_ref(refs);
        } else {
            lemma_foreign_ref_exists(refs);
        }
        if audit(v) is Ok {
            assert forall|i: int|
                0 <= i < refs.len() implies #[trigger] schema_name(refs[i]) is Some && has_key(
                    schemas,
                    schema_name(refs[i])->0,
                ) by {
                let name = schema_name(refs[i])->0;
                if !has_key(schemas, name) {
                    assert(unresolved(refs[i], schemas, name));
                    assert(dangling_names(refs, schemas).contains(name));
                }
            }
        }
        if sound_document(v) {
            if first_foreign_ref(refs) is Some {
                let i = choose|i: int| 0 <= i < refs.len() && #[trigger] schema_name(refs[i]) is None;
                assert(schema_name(refs[i]) is Some);
            }
            if dangling_names(refs, schemas).len() > 0 {
                let name = dangling_names(refs, schemas)[0];
                assert(dangling_names(refs, schemas).contains(name));
                let i = choose|i: int| 0 <= i < refs.len() && #[trigger] unresolved(refs[i], schemas, name);
                assert(schema_name(refs[i]) is Some);
            }
        }
    }
}

} // verus!
