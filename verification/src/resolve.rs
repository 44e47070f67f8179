//! The reference resolver: parses `$ref` pointers of the three supported
//! forms, resolves them against the root document's registries, and walks
//! reference chains with a path-local active set so that a cycle is
//! reported rather than recursed into forever.

use vstd::prelude::*;
use vstd::string::StrSliceExecFns;
use vstd::string::StringExecFns;
use crate::errors::{PathSeg, PathSegV, ResolutionError, ResolutionErrV, copy_path};
use crate::model::{Parameter, ParameterOrRef, PathItem, Response, ResponseOrRef, Schema,
    SchemaOrRef, Spec, Operation};
use crate::value::str_eq;

verus! {

/// One of the three registries on the root document that a pointer may
/// name.
#[derive(Debug, PartialEq, Eq, Structural, Clone, Copy)]
pub enum Registry {
    Definitions,
    Parameters,
    Responses,
}

/// The pointer prefix that names a registry.
pub open spec fn prefix_of(reg: Registry) -> Seq<char> {
    match reg {
        Registry::Definitions => "#/definitions/"@,
        Registry::Parameters => "#/parameters/"@,
        Registry::Responses => "#/responses/"@,
    }
}

/// What a pointer names: the registry selected by its prefix and the key
/// that remains, or nothing for any other shape of pointer.
pub open spec fn pointer_target(p: Seq<char>) -> Option<(Registry, Seq<char>)> {
    if prefix_of(Registry::Definitions).is_prefix_of(p) {
        Some((Registry::Definitions, p.skip(prefix_of(Registry::Definitions).len() as int)))
    } else if prefix_of(Registry::Parameters).is_prefix_of(p) {
        Some((Registry::Parameters, p.skip(prefix_of(Registry::Parameters).len() as int)))
    } else if prefix_of(Registry::Responses).is_prefix_of(p) {
        Some((Registry::Responses, p.skip(prefix_of(Registry::Responses).len() as int)))
    } else {
        None
    }
}

/// A well-formed pointer is its registry's prefix followed by its key, so
/// two distinct pointers never name the same registry entry.
pub proof fn lemma_pointer_reconstruct(p: Seq<char>)
    requires
        pointer_target(p) is Some,
    ensures
        p =~= prefix_of(pointer_target(p)->Some_0.0) + pointer_target(p)->Some_0.1,
{
}

/// Whether `s` begins with `prefix`, character for character.
pub fn starts_with(s: &str, prefix: &str) -> (r: bool)
    ensures
        r == prefix@.is_prefix_of(s@),
{
    let n = prefix.unicode_len();
    let slen = s.unicode_len();
    if slen < n {
        return false;
    }
    let mut i: usize = 0;
    while i < n
        invariant
            n == prefix@.len(),
            slen == s@.len(),
            n <= slen,
            i <= n,
            forall|j: int| 0 <= j < i ==> s@[j] == prefix@[j],
        decreases n - i,
    {
        if s.get_char(i) != prefix.get_char(i) {
            proof {
                assert(s@.subrange(0, n as int)[i as int] == s@[i as int]);
            }
            return false;
        }
        i += 1;
    }
    proof {
        assert(s@.subrange(0, n as int) =~= prefix@);
    }
    true
}

/// Parses a pointer into its registry and key, exactly as `pointer_target`
/// states; any pointer outside the three supported forms is refused.
pub fn parse_pointer(p: &str) -> (r: Option<(Registry, String)>)
    ensures
        match r {
            Some(t) => pointer_target(p@) == Some((t.0, t.1@)),
            None => pointer_target(p@) is None,
        },
{
    proof {
        reveal_strlit("#/definitions/");
        reveal_strlit("#/parameters/");
        reveal_strlit("#/responses/");
    }
    if starts_with(p, "#/definitions/") {
        let key = p.substring_char(14, p.unicode_len()).to_owned();
        Some((Registry::Definitions, key))
    } else if starts_with(p, "#/parameters/") {
        let key = p.substring_char(13, p.unicode_len()).to_owned();
        Some((Registry::Parameters, key))
    } else if starts_with(p, "#/responses/") {
        let key = p.substring_char(12, p.unicode_len()).to_owned();
        Some((Registry::Responses, key))
    } else {
        None
    }
}

/// The value at `key` in a keyed registry: the first entry whose key
/// matches, or `None`.
pub open spec fn assoc<T>(entries: Seq<(String, T)>, key: Seq<char>) -> Option<T>
    decreases entries.len(),
{
    if entries.len() == 0 {
        None
    } else if entries[0].0@ == key {
        Some(entries[0].1)
    } else {
        assoc(entries.subrange(1, entries.len() as int), key)
    }
}

proof fn lemma_assoc_found<T>(entries: Seq<(String, T)>, key: Seq<char>, i: int)
    requires
        0 <= i < entries.len(),
        forall|j: int| 0 <= j < i ==> entries[j].0@ != key,
        entries[i].0@ == key,
    ensures
        assoc(entries, key) == Some(entries[i].1),
    decreases i,
{
    if i > 0 {
        lemma_assoc_found(entries.subrange(1, entries.len() as int), key, i - 1);
    }
}

proof fn lemma_assoc_absent<T>(entries: Seq<(String, T)>, key: Seq<char>)
    requires
        forall|j: int| 0 <= j < entries.len() ==> entries[j].0@ != key,
    ensures
        assoc(entries, key) is None,
    decreases entries.len(),
{
    if entries.len() > 0 {
        lemma_assoc_absent(entries.subrange(1, entries.len() as int), key);
    }
}

/// Finds `key` in a registry, exactly as `assoc` states.
pub fn assoc_get<'a, T>(entries: &'a Vec<(String, T)>, key: &str) -> (r: Option<&'a T>)
    ensures
        match r {
            Some(t) => assoc(entries@, key@) == Some(*t),
            None => assoc(entries@, key@) is None,
        },
{
    let mut i: usize = 0;
    while i < entries.len()
        invariant
            i <= entries@.len(),
            forall|j: int| 0 <= j < i ==> entries@[j].0@ != key@,
        decreases entries@.len() - i,
    {
        if str_eq(entries[i].0.as_str(), key) {
            proof {
                lemma_assoc_found(entries@, key@, i as int);
            }
            return Some(&entries[i].1);
        }
        i += 1;
    }
    proof {
        lemma_assoc_absent(entries@, key@);
    }
    None
}

/// The index of the first entry holding `key`.
pub open spec fn first_index<T>(entries: Seq<(String, T)>, key: Seq<char>) -> int
    decreases entries.len(),
{
    if entries.len() == 0 {
        0
    } else if entries[0].0@ == key {
        0
    } else {
        1 + first_index(entries.subrange(1, entries.len() as int), key)
    }
}

proof fn lemma_first_index<T>(entries: Seq<(String, T)>, key: Seq<char>)
    requires
        assoc(entries, key) is Some,
    ensures
        0 <= first_index(entries, key) < entries.len(),
        entries[first_index(entries, key)].0@ == key,
    decreases entries.len(),
{
    if entries.len() > 0 && entries[0].0@ != key {
        lemma_first_index(entries.subrange(1, entries.len() as int), key);
    }
}

/// How many entries the three registries hold together.
pub open spec fn regs_total(s: Spec) -> int {
    s.definitions@.len() + s.parameters@.len() + s.responses@.len() as int
}

/// Whether the registry selected by `reg` holds `key`.
pub open spec fn reg_has(s: Spec, reg: Registry, key: Seq<char>) -> bool {
    match reg {
        Registry::Definitions => assoc(s.definitions@, key) is Some,
        Registry::Parameters => assoc(s.parameters@, key) is Some,
        Registry::Responses => assoc(s.responses@, key) is Some,
    }
}

/// A pointer that may stand on the active resolution path: well-formed and
/// naming an existing registry entry.
pub open spec fn active_ok(s: Spec, p: Seq<char>) -> bool {
    pointer_target(p) matches Some(t) && reg_has(s, t.0, t.1)
}

/// The active resolution path is well-formed: every pointer on it resolved,
/// and no pointer stands on it twice.
pub open spec fn active_wf(s: Spec, active: Seq<Seq<char>>) -> bool {
    &&& forall|i: int| 0 <= i < active.len() ==> active_ok(s, #[trigger] active[i])
    &&& forall|i: int, j: int| 0 <= i < j < active.len() ==> active[i] != active[j]
}

/// A number below `regs_total` that identifies the registry entry a
/// resolved pointer names.
pub open spec fn entry_code(s: Spec, p: Seq<char>) -> int {
    let t = pointer_target(p)->Some_0;
    match t.0 {
        Registry::Definitions => first_index(s.definitions@, t.1),
        Registry::Parameters => s.definitions@.len() as int + first_index(s.parameters@, t.1),
        Registry::Responses => s.definitions@.len() + s.parameters@.len() + first_index(
            s.responses@,
            t.1,
        ),
    }
}

proof fn lemma_entry_code_range(s: Spec, p: Seq<char>)
    requires
        active_ok(s, p),
    ensures
        0 <= entry_code(s, p) < regs_total(s),
{
    let t = pointer_target(p)->Some_0;
    match t.0 {
        Registry::Definitions => lemma_first_index(s.definitions@, t.1),
        Registry::Parameters => lemma_first_index(s.parameters@, t.1),
        Registry::Responses => lemma_first_index(s.responses@, t.1),
    }
}

proof fn lemma_entry_code_injective(s: Spec, p1: Seq<char>, p2: Seq<char>)
    requires
        active_ok(s, p1),
        active_ok(s, p2),
        p1 != p2,
    ensures
        entry_code(s, p1) != entry_code(s, p2),
{
    let t1 = pointer_target(p1)->Some_0;
    let t2 = pointer_target(p2)->Some_0;
    lemma_pointer_reconstruct(p1);
    lemma_pointer_reconstruct(p2);
    assert(t1 != t2);
    lemma_first_index_all(s, t1.1);
    lemma_first_index_all(s, t2.1);
    if t1.0 == t2.0 && t1.1 != t2.1 {
        match t1.0 {
            Registry::Definitions => {
                assert(s.definitions@[first_index(s.definitions@, t1.1)].0@ == t1.1);
                assert(s.definitions@[first_index(s.definitions@, t2.1)].0@ == t2.1);
            },
            Registry::Parameters => {
                assert(s.parameters@[first_index(s.parameters@, t1.1)].0@ == t1.1);
                assert(s.parameters@[first_index(s.parameters@, t2.1)].0@ == t2.1);
            },
            Registry::Responses => {
                assert(s.responses@[first_index(s.responses@, t1.1)].0@ == t1.1);
                assert(s.responses@[first_index(s.responses@, t2.1)].0@ == t2.1);
            },
        }
    }
}

/// The first index of a key present in any of the registries lies inside
/// that registry and holds the key.
proof fn lemma_first_index_all(s: Spec, key: Seq<char>)
    ensures
        assoc(s.definitions@, key) is Some ==> 0 <= first_index(s.definitions@, key)
            < s.definitions@.len() && s.definitions@[first_index(s.definitions@, key)].0@ == key,
        assoc(s.parameters@, key) is Some ==> 0 <= first_index(s.parameters@, key)
            < s.parameters@.len() && s.parameters@[first_index(s.parameters@, key)].0@ == key,
        assoc(s.responses@, key) is Some ==> 0 <= first_index(s.responses@, key)
            < s.responses@.len() && s.responses@[first_index(s.responses@, key)].0@ == key,
{
    if assoc(s.definitions@, key) is Some {
        lemma_first_index(s.definitions@, key);
    }
    if assoc(s.parameters@, key) is Some {
        lemma_first_index(s.parameters@, key);
    }
    if assoc(s.responses@, key) is Some {
        lemma_first_index(s.responses@, key);
    }
}

/// The active path holds pointers to distinct registry entries, so it can
/// never grow past the registries' total size: the measure that resolution
/// terminates by.
pub proof fn lemma_active_bound(s: Spec, active: Seq<Seq<char>>)
    requires
        active_wf(s, active),
    ensures
        active.len() <= regs_total(s),
{
    let codes = active.map_values(|p: Seq<char>| entry_code(s, p));
    assert forall|i: int, j: int| 0 <= i < j < codes.len() implies codes[i] != codes[j] by {
        lemma_entry_code_injective(s, active[i], active[j]);
    }
    assert(codes.no_duplicates());
    codes.unique_seq_to_set();
    assert forall|c: int| codes.to_set().contains(c) implies vstd::set_lib::set_int_range(
        0,
        regs_total(s),
    ).contains(c) by {
        let i = choose|i: int| 0 <= i < codes.len() && codes[i] == c;
        lemma_entry_code_range(s, active[i]);
    }
    vstd::set_lib::lemma_int_range(0, regs_total(s));
    vstd::set_lib::lemma_len_subset(
        codes.to_set(),
        vstd::set_lib::set_int_range(0, regs_total(s)),
    );
}

/// The pointers written inside a schema-or-reference node: the node's own
/// pointer, or every pointer nested in the inline schema.
pub open spec fn refs_in_sor(sor: SchemaOrRef) -> Seq<Seq<char>>
    decreases sor, 1int,
    via refs_in_sor_dec
{
    match sor {
        SchemaOrRef::Reference(p) => seq![p@],
        SchemaOrRef::Inline(b) => refs_in_schema(*b),
    }
}

#[via_fn]
proof fn refs_in_sor_dec(sor: SchemaOrRef) {
    if let SchemaOrRef::Inline(b) = sor {
        assert(decreases_to!(sor => *b));
    }
}

/// The pointers written inside an inline schema: those under `items`, then
/// `allOf`, then `properties`.
pub open spec fn refs_in_schema(s: Schema) -> Seq<Seq<char>>
    decreases s, 3int,
    via refs_in_schema_dec
{
    (match s.items {
        Option::None => Seq::empty(),
        Option::Some(b) => refs_in_sor(*b),
    }) + (match s.all_of {
        Option::None => Seq::empty(),
        Option::Some(v) => refs_in_sor_list(v, 0),
    }) + (match s.properties {
        Option::None => Seq::empty(),
        Option::Some(v) => refs_in_sor_map(v, 0),
    })
}

#[via_fn]
proof fn refs_in_schema_dec(s: Schema) {
    if let Option::Some(b) = s.items {
        assert(decreases_to!(s => *b));
    }
    if let Option::Some(v) = s.all_of {
        assert(decreases_to!(s => v));
    }
    if let Option::Some(v) = s.properties {
        assert(decreases_to!(s => v));
    }
}

/// The pointers written inside the elements of an `allOf` vector, from
/// element `i` on.
pub open spec fn refs_in_sor_list(v: Vec<SchemaOrRef>, i: int) -> Seq<Seq<char>>
    decreases v, v@.len() - i,
    via refs_in_sor_list_dec
{
    if i < 0 || i >= v@.len() {
        Seq::empty()
    } else {
        refs_in_sor(v@[i]) + refs_in_sor_list(v, i + 1)
    }
}

#[via_fn]
proof fn refs_in_sor_list_dec(v: Vec<SchemaOrRef>, i: int) {
    if 0 <= i < v@.len() {
        assert(decreases_to!(v => v@[i]));
    }
}

/// The pointers written inside the values of a `properties` vector, from
/// entry `i` on.
pub open spec fn refs_in_sor_map(v: Vec<(String, SchemaOrRef)>, i: int) -> Seq<Seq<char>>
    decreases v, v@.len() - i,
    via refs_in_sor_map_dec
{
    if i < 0 || i >= v@.len() {
        Seq::empty()
    } else {
        refs_in_sor(v@[i].1) + refs_in_sor_map(v, i + 1)
    }
}

#[via_fn]
proof fn refs_in_sor_map_dec(v: Vec<(String, SchemaOrRef)>, i: int) {
    if 0 <= i < v@.len() {
        assert(decreases_to!(v => v@[i]));
        assert(decreases_to!(v@[i] => v@[i].1));
    }
}

/// The pointers written inside a parameter: those of its body schema.
pub open spec fn refs_in_parameter(p: Parameter) -> Seq<Seq<char>> {
    match p.schema {
        Option::None => Seq::empty(),
        Option::Some(sor) => refs_in_sor(sor),
    }
}

/// The pointers written inside a response: those of its schema.
pub open spec fn refs_in_response(r: Response) -> Seq<Seq<char>> {
    match r.schema {
        Option::None => Seq::empty(),
        Option::Some(sor) => refs_in_sor(sor),
    }
}

/// Appends the pointers of `src` to `dst`.
fn append_strings(dst: &mut Vec<String>, src: &Vec<String>)
    ensures
        final(dst).deep_view() == old(dst).deep_view() + src.deep_view(),
{
    let mut i: usize = 0;
    while i < src.len()
        invariant
            i <= src@.len(),
            dst@.len() == old(dst)@.len() + i,
            forall|j: int| 0 <= j < old(dst)@.len() ==> dst.deep_view()[j] == old(
                dst,
            ).deep_view()[j],
            forall|j: int|
                0 <= j < i ==> dst.deep_view()[old(dst)@.len() + j] == src.deep_view()[j],
        decreases src@.len() - i,
    {
        dst.push(src[i].clone());
        i += 1;
    }
    proof {
        assert(dst.deep_view() =~= old(dst).deep_view() + src.deep_view());
    }
}

/// Collects the pointers written inside a schema-or-reference node.
pub fn refs_of_sor(sor: &SchemaOrRef) -> (r: Vec<String>)
    ensures
        r.deep_view() == refs_in_sor(*sor),
    decreases *sor, 1int,
{
    match sor {
        SchemaOrRef::Reference(p) => {
            let mut out: Vec<String> = Vec::new();
            out.push(p.clone());
            proof {
                assert(out.deep_view() =~= seq![p@]);
            }
            out
        },
        SchemaOrRef::Inline(b) => {
            proof {
                assert(decreases_to!(*sor => **b));
            }
            refs_of_schema(&*b)
        },
    }
}

/// Collects the pointers written inside an inline schema.
pub fn refs_of_schema(s: &Schema) -> (r: Vec<String>)
    ensures
        r.deep_view() == refs_in_schema(*s),
    decreases *s, 3int,
{
    let mut out: Vec<String> = match &s.items {
        Option::None => Vec::new(),
        Option::Some(b) => {
            proof {
                assert(decreases_to!(*s => **b));
            }
            refs_of_sor(&*b)
        },
    };
    proof {
        assert(out.deep_view() =~= (match s.items {
            Option::None => Seq::empty(),
            Option::Some(b) => refs_in_sor(*b),
        }));
    }
    match &s.all_of {
        Option::None => {
            proof {
                assert(out.deep_view() + Seq::<Seq<char>>::empty() =~= out.deep_view());
            }
        },
        Option::Some(v) => {
            proof {
                assert(decreases_to!(*s => *v));
            }
            let part = refs_of_sor_list(v);
            append_strings(&mut out, &part);
        },
    }
    proof {
        assert(out.deep_view() =~= (match s.items {
            Option::None => Seq::empty(),
            Option::Some(b) => refs_in_sor(*b),
        }) + (match s.all_of {
            Option::None => Seq::empty(),
            Option::Some(v) => refs_in_sor_list(v, 0),
        }));
    }
    match &s.properties {
        Option::None => {
            proof {
                assert(out.deep_view() + Seq::<Seq<char>>::empty() =~= out.deep_view());
            }
        },
        Option::Some(v) => {
            proof {
                assert(decreases_to!(*s => *v));
            }
            let part = refs_of_sor_map(v);
            append_strings(&mut out, &part);
        },
    }
    proof {
        assert(out.deep_view() =~= refs_in_schema(*s));
    }
    out
}

/// Collects the pointers written inside the elements of an `allOf` vector.
fn refs_of_sor_list(v: &Vec<SchemaOrRef>) -> (r: Vec<String>)
    ensures
        r.deep_view() == refs_in_sor_list(*v, 0),
    decreases *v, v@.len() + 1,
{
    let mut out: Vec<String> = Vec::new();
    let mut i: usize = 0;
    while i < v.len()
        invariant
            i <= v@.len(),
            out.deep_view() + refs_in_sor_list(*v, i as int) =~= refs_in_sor_list(*v, 0),
        decreases v@.len() - i,
    {
        proof {
            assert(decreases_to!(*v => v@[i as int]));
        }
        let part = refs_of_sor(&v[i]);
        append_strings(&mut out, &part);
        i += 1;
    }
    proof {
        assert(out.deep_view() + Seq::<Seq<char>>::empty() =~= out.deep_view());
    }
    out
}

/// Collects the pointers written inside the values of a `properties`
/// vector.
fn refs_of_sor_map(v: &Vec<(String, SchemaOrRef)>) -> (r: Vec<String>)
    ensures
        r.deep_view() == refs_in_sor_map(*v, 0),
    decreases *v, v@.len() + 1,
{
    let mut out: Vec<String> = Vec::new();
    let mut i: usize = 0;
    while i < v.len()
        invariant
            i <= v@.len(),
            out.deep_view() + refs_in_sor_map(*v, i as int) =~= refs_in_sor_map(*v, 0),
        decreases v@.len() - i,
    {
        proof {
            assert(decreases_to!(*v => v@[i as int]));
            assert(decreases_to!(v@[i as int] => v@[i as int].1));
        }
        let part = refs_of_sor(&v[i].1);
        append_strings(&mut out, &part);
        i += 1;
    }
    proof {
        assert(out.deep_view() + Seq::<Seq<char>>::empty() =~= out.deep_view());
    }
    out
}

/// Collects the pointers written inside a parameter.
pub fn refs_of_parameter(p: &Parameter) -> (r: Vec<String>)
    ensures
        r.deep_view() == refs_in_parameter(*p),
{
    match &p.schema {
        Option::None => {
            let out: Vec<String> = Vec::new();
            proof {
                assert(out.deep_view() =~= Seq::<Seq<char>>::empty());
            }
            out
        },
        Option::Some(sor) => refs_of_sor(sor),
    }
}

/// Collects the pointers written inside a response.
pub fn refs_of_response(r: &Response) -> (out: Vec<String>)
    ensures
        out.deep_view() == refs_in_response(*r),
{
    match &r.schema {
        Option::None => {
            let out: Vec<String> = Vec::new();
            proof {
                assert(out.deep_view() =~= Seq::<Seq<char>>::empty());
            }
            out
        },
        Option::Some(sor) => refs_of_sor(sor),
    }
}

/// The pointers a resolved registry entry depends on.
pub open spec fn target_refs(s: Spec, reg: Registry, key: Seq<char>) -> Seq<Seq<char>> {
    match reg {
        Registry::Definitions => refs_in_sor(assoc(s.definitions@, key)->Some_0),
        Registry::Parameters => refs_in_parameter(assoc(s.parameters@, key)->Some_0),
        Registry::Responses => refs_in_response(assoc(s.responses@, key)->Some_0),
    }
}

/// The registry's name, as a location step.
pub open spec fn reg_name(reg: Registry) -> Seq<char> {
    match reg {
        Registry::Definitions => "definitions"@,
        Registry::Parameters => "parameters"@,
        Registry::Responses => "responses"@,
    }
}

/// The location of a registry entry.
pub open spec fn target_loc(reg: Registry, key: Seq<char>) -> Seq<PathSegV> {
    seq![PathSegV::Key(reg_name(reg)), PathSegV::Key(key)]
}

/// The first resolution error met while resolving one pointer against the
/// document, if any: an unsupported form, a pointer already on the active
/// path (a cycle), a key absent from its registry (dangling), or an error
/// inside the target's own references, followed depth-first.
pub open spec fn check_ptr_spec(
    s: Spec,
    p: Seq<char>,
    loc: Seq<PathSegV>,
    active: Seq<Seq<char>>,
) -> Option<ResolutionErrV>
    decreases regs_total(s) - active.len(), 0int, 0int,
        when active_wf(s, active)
    via check_ptr_spec_dec
{
    match pointer_target(p) {
        Option::None => Some(ResolutionErrV::UnsupportedReference { pointer: p }),
        Option::Some(t) => if active.contains(p) {
            Some(ResolutionErrV::CyclicReference { chain: active.push(p) })
        } else if !reg_has(s, t.0, t.1) {
            Some(ResolutionErrV::DanglingReference { pointer: p, location: loc })
        } else {
            check_deps_spec(s, target_refs(s, t.0, t.1), 0, target_loc(t.0, t.1), active.push(p))
        },
    }
}

#[via_fn]
proof fn check_ptr_spec_dec(s: Spec, p: Seq<char>, loc: Seq<PathSegV>, active: Seq<Seq<char>>) {
    if pointer_target(p) matches Some(t) && !active.contains(p) && reg_has(s, t.0, t.1) {
        let a2 = active.push(p);
        assert forall|i: int, j: int| 0 <= i < j < a2.len() implies a2[i] != a2[j] by {
            if j == a2.len() - 1 {
                assert(!active.contains(p));
            }
        }
        assert(active_wf(s, a2));
        lemma_active_bound(s, a2);
    }
}

/// The first resolution error among a target's own references, from
/// reference `i` on, each resolved with the target on the active path.
pub open spec fn check_deps_spec(
    s: Spec,
    deps: Seq<Seq<char>>,
    i: int,
    loc: Seq<PathSegV>,
    active: Seq<Seq<char>>,
) -> Option<ResolutionErrV>
    decreases regs_total(s) - active.len(), 1int, deps.len() - i,
        when active_wf(s, active)
    via check_deps_spec_dec
{
    if i < 0 || i >= deps.len() {
        None
    } else {
        match check_ptr_spec(s, deps[i], loc, active) {
            Option::Some(e) => Some(e),
            Option::None => check_deps_spec(s, deps, i + 1, loc, active),
        }
    }
}

#[via_fn]
proof fn check_deps_spec_dec(
    s: Spec,
    deps: Seq<Seq<char>>,
    i: int,
    loc: Seq<PathSegV>,
    active: Seq<Seq<char>>,
) {
    lemma_active_bound(s, active);
}

/// Whether `p` already stands on the active path.
fn contains_string(active: &Vec<String>, p: &String) -> (r: bool)
    ensures
        r == active.deep_view().contains(p@),
{
    let mut i: usize = 0;
    while i < active.len()
        invariant
            i <= active@.len(),
            forall|j: int| 0 <= j < i ==> active.deep_view()[j] != p@,
        decreases active@.len() - i,
    {
        if str_eq(active[i].as_str(), p.as_str()) {
            proof {
                assert(active.deep_view()[i as int] == p@);
            }
            return true;
        }
        i += 1;
    }
    proof {
        assert(!active.deep_view().contains(p@)) by {
            if active.deep_view().contains(p@) {
                let j = choose|j: int|
                    0 <= j < active.deep_view().len() && active.deep_view()[j] == p@;
            }
        }
    }
    false
}

/// Copies the active path, so that a recursive step can extend its own.
fn copy_strings(v: &Vec<String>) -> (r: Vec<String>)
    ensures
        r.deep_view() == v.deep_view(),
{
    let mut out: Vec<String> = Vec::new();
    let mut i: usize = 0;
    while i < v.len()
        invariant
            i <= v@.len(),
            out@.len() == i,
            forall|j: int| 0 <= j < i ==> out.deep_view()[j] == v.deep_view()[j],
        decreases v@.len() - i,
    {
        out.push(v[i].clone());
        i += 1;
    }
    proof {
        assert(out.deep_view() =~= v.deep_view());
    }
    out
}

/// The location of a registry entry, as a breadcrumb.
fn reg_loc(name: &str, key: &String) -> (r: Vec<PathSeg>)
    ensures
        r.deep_view() == seq![PathSegV::Key(name@), PathSegV::Key(key@)],
{
    let mut out: Vec<PathSeg> = Vec::new();
    out.push(PathSeg::Key(String::from_str(name)));
    out.push(PathSeg::Key(key.clone()));
    proof {
        assert(out.deep_view() =~= seq![PathSegV::Key(name@), PathSegV::Key(key@)]);
    }
    out
}

/// Resolves one pointer against the document, depth-first, exactly as
/// `check_ptr_spec` states.
fn check_ptr(s: &Spec, p: &String, loc: &Vec<PathSeg>, active: &Vec<String>) -> (r: Result<
    (),
    ResolutionError,
>)
    requires
        active_wf(*s, active.deep_view()),
    ensures
        match r {
            Ok(u) => check_ptr_spec(*s, p@, loc.deep_view(), active.deep_view()) is None,
            Err(e) => check_ptr_spec(*s, p@, loc.deep_view(), active.deep_view()) == Some(e@),
        },
    decreases regs_total(*s) - active@.len(), 0int, 0int,
{
    proof {
        lemma_active_bound(*s, active.deep_view());
        assert(active@.len() == active.deep_view().len());
    }
    match parse_pointer(p.as_str()) {
        Option::None => Err(ResolutionError::UnsupportedReference { pointer: p.clone() }),
        Option::Some((reg, key)) => {
            if contains_string(active, p) {
                let mut chain = copy_strings(active);
                chain.push(p.clone());
                proof {
                    assert(chain.deep_view() =~= active.deep_view().push(p@));
                }
                Err(ResolutionError::CyclicReference { chain })
            } else {
                let mut act2 = copy_strings(active);
                act2.push(p.clone());
                proof {
                    assert(act2.deep_view() =~= active.deep_view().push(p@));
                }
                match reg {
                    Registry::Definitions => match assoc_get(&s.definitions, key.as_str()) {
                        Option::None => Err(
                            ResolutionError::DanglingReference {
                                pointer: p.clone(),
                                location: copy_path(loc),
                            },
                        ),
                        Option::Some(entry) => {
                            let deps = refs_of_sor(entry);
                            let tloc = reg_loc("definitions", &key);
                            proof {
                                check_wf_push(*s, p@, active.deep_view());
                            }
                            check_deps(s, &deps, 0, &tloc, &act2)
                        },
                    },
                    Registry::Parameters => match assoc_get(&s.parameters, key.as_str()) {
                        Option::None => Err(
                            ResolutionError::DanglingReference {
                                pointer: p.clone(),
                                location: copy_path(loc),
                            },
                        ),
                        Option::Some(entry) => {
                            let deps = refs_of_parameter(entry);
                            let tloc = reg_loc("parameters", &key);
                            proof {
                                check_wf_push(*s, p@, active.deep_view());
                            }
                            check_deps(s, &deps, 0, &tloc, &act2)
                        },
                    },
                    Registry::Responses => match assoc_get(&s.responses, key.as_str()) {
                        Option::None => Err(
                            ResolutionError::DanglingReference {
                                pointer: p.clone(),
                                location: copy_path(loc),
                            },
                        ),
                        Option::Some(entry) => {
                            let deps = refs_of_response(entry);
                            let tloc = reg_loc("responses", &key);
                            proof {
                                check_wf_push(*s, p@, active.deep_view());
                            }
                            check_deps(s, &deps, 0, &tloc, &act2)
                        },
                    },
                }
            }
        },
    }
}

/// Pushing a pointer that parsed, was not yet active, and whose key is
/// present keeps the active path well-formed.
proof fn check_wf_push(s: Spec, p: Seq<char>, active: Seq<Seq<char>>)
    requires
        active_wf(s, active),
        active_ok(s, p),
        !active.contains(p),
    ensures
        active_wf(s, active.push(p)),
        active.push(p).len() <= regs_total(s),
{
    let a2 = active.push(p);
    assert forall|i: int, j: int| 0 <= i < j < a2.len() implies a2[i] != a2[j] by {
        if j == a2.len() - 1 {
            assert(!active.contains(p));
        }
    }
    lemma_active_bound(s, a2);
}

/// Resolves each of a target's references in order, exactly as
/// `check_deps_spec` states.
fn check_deps(
    s: &Spec,
    deps: &Vec<String>,
    from: usize,
    loc: &Vec<PathSeg>,
    active: &Vec<String>,
) -> (r: Result<(), ResolutionError>)
    requires
        active_wf(*s, active.deep_view()),
    ensures
        match r {
            Ok(u) => check_deps_spec(
                *s,
                deps.deep_view(),
                from as int,
                loc.deep_view(),
                active.deep_view(),
            ) is None,
            Err(e) => check_deps_spec(
                *s,
                deps.deep_view(),
                from as int,
                loc.deep_view(),
                active.deep_view(),
            ) == Some(e@),
        },
    decreases regs_total(*s) - active@.len(), 1int, 0int,
{
    let mut i: usize = from;
    while i < deps.len()
        invariant
            from <= i <= deps@.len() || (from >= deps@.len() && i == from),
            active_wf(*s, active.deep_view()),
            check_deps_spec(
                *s,
                deps.deep_view(),
                from as int,
                loc.deep_view(),
                active.deep_view(),
            ) == check_deps_spec(
                *s,
                deps.deep_view(),
                i as int,
                loc.deep_view(),
                active.deep_view(),
            ),
        decreases deps@.len() - i,
    {
        match check_ptr(s, &deps[i], loc, active) {
            Ok(u) => {},
            Err(e) => {
                return Err(e);
            },
        }
        i += 1;
    }
    Ok(())
}

/// The full pointer string that names a registry entry.
pub open spec fn pointer_of(reg: Registry, key: Seq<char>) -> Seq<char> {
    prefix_of(reg) + key
}

/// A registry's prefix followed by a key parses back to that registry and
/// key.
pub proof fn lemma_pointer_of(reg: Registry, key: Seq<char>)
    ensures
        pointer_target(pointer_of(reg, key)) == Some((reg, key)),
{
    reveal_strlit("#/definitions/");
    reveal_strlit("#/parameters/");
    reveal_strlit("#/responses/");
    let p = pointer_of(reg, key);
    match reg {
        Registry::Definitions => {
            assert(prefix_of(Registry::Definitions).is_prefix_of(p)) by {
                assert(p.subrange(0, 14) =~= prefix_of(Registry::Definitions));
            }
            assert(p.skip(14) =~= key);
        },
        Registry::Parameters => {
            assert(!prefix_of(Registry::Definitions).is_prefix_of(p)) by {
                if prefix_of(Registry::Definitions).is_prefix_of(p) {
                    assert(p.subrange(0, 14)[2] == 'd');
                    assert(p[2] == 'p');
                }
            }
            assert(prefix_of(Registry::Parameters).is_prefix_of(p)) by {
                assert(p.subrange(0, 13) =~= prefix_of(Registry::Parameters));
            }
            assert(p.skip(13) =~= key);
        },
        Registry::Responses => {
            assert(!prefix_of(Registry::Definitions).is_prefix_of(p)) by {
                if prefix_of(Registry::Definitions).is_prefix_of(p) {
                    assert(p.subrange(0, 14)[2] == 'd');
                    assert(p[2] == 'r');
                }
            }
            assert(!prefix_of(Registry::Parameters).is_prefix_of(p)) by {
                if prefix_of(Registry::Parameters).is_prefix_of(p) {
                    assert(p.subrange(0, 13)[2] == 'p');
                    assert(p[2] == 'r');
                }
            }
            assert(prefix_of(Registry::Responses).is_prefix_of(p)) by {
                assert(p.subrange(0, 12) =~= prefix_of(Registry::Responses));
            }
            assert(p.skip(12) =~= key);
        },
    }
}

/// The pointers a parameter-or-reference position depends on.
pub open spec fn refs_in_por(por: ParameterOrRef) -> Seq<Seq<char>> {
    match por {
        ParameterOrRef::Reference(p) => seq![p@],
        ParameterOrRef::Inline(pp) => refs_in_parameter(pp),
    }
}

/// The pointers of a parameters sequence, from element `i` on.
pub open spec fn refs_in_por_list(elems: Seq<ParameterOrRef>, i: int) -> Seq<Seq<char>>
    decreases elems.len() - i,
{
    if i < 0 || i >= elems.len() {
        Seq::empty()
    } else {
        refs_in_por(elems[i]) + refs_in_por_list(elems, i + 1)
    }
}

/// The pointers a response-or-reference position depends on.
pub open spec fn refs_in_ror(ror: ResponseOrRef) -> Seq<Seq<char>> {
    match ror {
        ResponseOrRef::Reference(p) => seq![p@],
        ResponseOrRef::Inline(rr) => refs_in_response(rr),
    }
}

/// The pointers of a responses mapping, from entry `i` on.
pub open spec fn refs_in_ror_map(entries: Seq<(String, ResponseOrRef)>, i: int) -> Seq<Seq<char>>
    decreases entries.len() - i,
{
    if i < 0 || i >= entries.len() {
        Seq::empty()
    } else {
        refs_in_ror(entries[i].1) + refs_in_ror_map(entries, i + 1)
    }
}

/// The pointers written inside an operation: its parameters', then its
/// responses'.
pub open spec fn refs_in_operation(o: Operation) -> Seq<Seq<char>> {
    (match o.parameters {
        Option::None => Seq::empty(),
        Option::Some(v) => refs_in_por_list(v@, 0),
    }) + refs_in_ror_map(o.responses@, 0)
}

/// The pointers of an optional operation.
pub open spec fn refs_in_opt_op(o: Option<Operation>) -> Seq<Seq<char>> {
    match o {
        Option::None => Seq::empty(),
        Option::Some(op) => refs_in_operation(op),
    }
}

/// The pointers written inside a path item: its own `$ref`, then those of
/// each operation in verb order.
pub open spec fn refs_in_path_item(pi: PathItem) -> Seq<Seq<char>> {
    (match pi.ref_path {
        Option::None => Seq::empty(),
        Option::Some(p) => seq![p@],
    }) + refs_in_opt_op(pi.get) + refs_in_opt_op(pi.put) + refs_in_opt_op(pi.post)
        + refs_in_opt_op(pi.delete) + refs_in_opt_op(pi.options) + refs_in_opt_op(pi.head)
        + refs_in_opt_op(pi.patch)
}

fn refs_of_por_list(elems: &Vec<ParameterOrRef>) -> (r: Vec<String>)
    ensures
        r.deep_view() == refs_in_por_list(elems@, 0),
{
    let mut out: Vec<String> = Vec::new();
    let mut i: usize = 0;
    while i < elems.len()
        invariant
            i <= elems@.len(),
            out.deep_view() + refs_in_por_list(elems@, i as int) =~= refs_in_por_list(elems@, 0),
        decreases elems@.len() - i,
    {
        let part = match &elems[i] {
            ParameterOrRef::Reference(p) => {
                let mut v: Vec<String> = Vec::new();
                v.push(p.clone());
                proof {
                    assert(v.deep_view() =~= seq![p@]);
                }
                v
            },
            ParameterOrRef::Inline(pp) => refs_of_parameter(pp),
        };
        append_strings(&mut out, &part);
        i += 1;
    }
    proof {
        assert(out.deep_view() + Seq::<Seq<char>>::empty() =~= out.deep_view());
    }
    out
}

fn refs_of_ror_map(entries: &Vec<(String, ResponseOrRef)>) -> (r: Vec<String>)
    ensures
        r.deep_view() == refs_in_ror_map(entries@, 0),
{
    let mut out: Vec<String> = Vec::new();
    let mut i: usize = 0;
    while i < entries.len()
        invariant
            i <= entries@.len(),
            out.deep_view() + refs_in_ror_map(entries@, i as int) =~= refs_in_ror_map(entries@, 0),
        decreases entries@.len() - i,
    {
        let part = match &entries[i].1 {
            ResponseOrRef::Reference(p) => {
                let mut v: Vec<String> = Vec::new();
                v.push(p.clone());
                proof {
                    assert(v.deep_view() =~= seq![p@]);
                }
                v
            },
            ResponseOrRef::Inline(rr) => refs_of_response(rr),
        };
        append_strings(&mut out, &part);
        i += 1;
    }
    proof {
        assert(out.deep_view() + Seq::<Seq<char>>::empty() =~= out.deep_view());
    }
    out
}

fn refs_of_opt_op(o: &Option<Operation>) -> (r: Vec<String>)
    ensures
        r.deep_view() == refs_in_opt_op(*o),
{
    match o {
        Option::None => {
            let v: Vec<String> = Vec::new();
            proof {
                assert(v.deep_view() =~= Seq::<Seq<char>>::empty());
            }
            v
        },
        Option::Some(op) => {
            let mut out = match &op.parameters {
                Option::None => {
                    let v: Vec<String> = Vec::new();
                    proof {
                        assert(v.deep_view() =~= Seq::<Seq<char>>::empty());
                    }
                    v
                },
                Option::Some(ps) => refs_of_por_list(ps),
            };
            let part = refs_of_ror_map(&op.responses);
            append_strings(&mut out, &part);
            proof {
                assert(out.deep_view() =~= refs_in_operation(*op));
            }
            out
        },
    }
}

/// Collects the pointers written inside a path item.
pub fn refs_of_path_item(pi: &PathItem) -> (r: Vec<String>)
    ensures
        r.deep_view() == refs_in_path_item(*pi),
{
    let mut out: Vec<String> = match &pi.ref_path {
        Option::None => {
            let v: Vec<String> = Vec::new();
            proof {
                assert(v.deep_view() =~= Seq::<Seq<char>>::empty());
            }
            v
        },
        Option::Some(p) => {
            let mut v: Vec<String> = Vec::new();
            v.push(p.clone());
            proof {
                assert(v.deep_view() =~= seq![p@]);
            }
            v
        },
    };
    let part = refs_of_opt_op(&pi.get);
    append_strings(&mut out, &part);
    let part = refs_of_opt_op(&pi.put);
    append_strings(&mut out, &part);
    let part = refs_of_opt_op(&pi.post);
    append_strings(&mut out, &part);
    let part = refs_of_opt_op(&pi.delete);
    append_strings(&mut out, &part);
    let part = refs_of_opt_op(&pi.options);
    append_strings(&mut out, &part);
    let part = refs_of_opt_op(&pi.head);
    append_strings(&mut out, &part);
    let part = refs_of_opt_op(&pi.patch);
    append_strings(&mut out, &part);
    proof {
        assert(out.deep_view() =~= refs_in_path_item(*pi));
    }
    out
}

/// The first resolution error among the `definitions` entries, each
/// resolved through its own pointer so that a self-reference is caught,
/// from entry `i` on.
pub open spec fn seed_defs_err(s: Spec, i: int) -> Option<ResolutionErrV>
    decreases s.definitions@.len() - i,
{
    if i < 0 || i >= s.definitions@.len() {
        None
    } else {
        let key = s.definitions@[i].0@;
        match check_ptr_spec(
            s,
            pointer_of(Registry::Definitions, key),
            target_loc(Registry::Definitions, key),
            Seq::empty(),
        ) {
            Option::Some(e) => Some(e),
            Option::None => seed_defs_err(s, i + 1),
        }
    }
}

/// The first resolution error among the `parameters` entries, from entry
/// `i` on.
pub open spec fn seed_params_err(s: Spec, i: int) -> Option<ResolutionErrV>
    decreases s.parameters@.len() - i,
{
    if i < 0 || i >= s.parameters@.len() {
        None
    } else {
        let key = s.parameters@[i].0@;
        match check_ptr_spec(
            s,
            pointer_of(Registry::Parameters, key),
            target_loc(Registry::Parameters, key),
            Seq::empty(),
        ) {
            Option::Some(e) => Some(e),
            Option::None => seed_params_err(s, i + 1),
        }
    }
}

/// The first resolution error among the `responses` entries, from entry
/// `i` on.
pub open spec fn seed_resps_err(s: Spec, i: int) -> Option<ResolutionErrV>
    decreases s.responses@.len() - i,
{
    if i < 0 || i >= s.responses@.len() {
        None
    } else {
        let key = s.responses@[i].0@;
        match check_ptr_spec(
            s,
            pointer_of(Registry::Responses, key),
            target_loc(Registry::Responses, key),
            Seq::empty(),
        ) {
            Option::Some(e) => Some(e),
            Option::None => seed_resps_err(s, i + 1),
        }
    }
}

/// The first resolution error among the references written in the `paths`
/// tree, from path `i` on.
pub open spec fn paths_err(s: Spec, i: int) -> Option<ResolutionErrV>
    decreases s.paths@.len() - i,
{
    if i < 0 || i >= s.paths@.len() {
        None
    } else {
        match check_deps_spec(
            s,
            refs_in_path_item(s.paths@[i].1),
            0,
            seq![PathSegV::Key("paths"@), PathSegV::Key(s.paths@[i].0@)],
            Seq::empty(),
        ) {
            Option::Some(e) => Some(e),
            Option::None => paths_err(s, i + 1),
        }
    }
}

/// The first resolution error of the whole document, if any: the registry
/// entries are resolved first (definitions, then parameters, then
/// responses, each against its own pointer), then every reference written
/// under `paths`.
pub open spec fn resolve_err(s: Spec) -> Option<ResolutionErrV> {
    if seed_defs_err(s, 0) is Some {
        seed_defs_err(s, 0)
    } else if seed_params_err(s, 0) is Some {
        seed_params_err(s, 0)
    } else if seed_resps_err(s, 0) is Some {
        seed_resps_err(s, 0)
    } else {
        paths_err(s, 0)
    }
}

/// A document whose every reference has been resolved: the certificate
/// that `resolve` issues.
#[derive(Debug, PartialEq, Eq)]
pub struct ResolvedSpec {
    pub spec: Spec,
}

/// Resolves every reference of the document: each registry entry and each
/// pointer under `paths` is followed, chains are walked depth-first with
/// path-local cycle tracking, and the first unsupported, dangling or cyclic
/// reference is reported. On success the document is returned unchanged,
/// wrapped as a certificate.
pub fn resolve(s: Spec) -> (r: Result<ResolvedSpec, ResolutionError>)
    ensures
        match r {
            Ok(rs) => rs.spec == s && resolve_err(s) is None,
            Err(e) => resolve_err(s) == Some(e@),
        },
{
    let empty_active: Vec<String> = Vec::new();
    proof {
        assert(empty_active.deep_view() =~= Seq::<Seq<char>>::empty());
        assert(active_wf(s, empty_active.deep_view()));
    }
    let mut i: usize = 0;
    while i < s.definitions.len()
        invariant
            i <= s.definitions@.len(),
            empty_active.deep_view() == Seq::<Seq<char>>::empty(),
            active_wf(s, empty_active.deep_view()),
            seed_defs_err(s, 0) == seed_defs_err(s, i as int),
        decreases s.definitions@.len() - i,
    {
        let key = &s.definitions[i].0;
        let ptr = String::from_str("#/definitions/").concat(key.as_str());
        let tloc = reg_loc("definitions", key);
        proof {
            lemma_pointer_of(Registry::Definitions, key@);
            assert(ptr@ == pointer_of(Registry::Definitions, key@));
        }
        match check_ptr(&s, &ptr, &tloc, &empty_active) {
            Ok(u) => {},
            Err(e) => {
                return Err(e);
            },
        }
        i += 1;
    }
    let mut i: usize = 0;
    while i < s.parameters.len()
        invariant
            i <= s.parameters@.len(),
            empty_active.deep_view() == Seq::<Seq<char>>::empty(),
            active_wf(s, empty_active.deep_view()),
            seed_defs_err(s, 0) is None,
            seed_params_err(s, 0) == seed_params_err(s, i as int),
        decreases s.parameters@.len() - i,
    {
        let key = &s.parameters[i].0;
        let ptr = String::from_str("#/parameters/").concat(key.as_str());
        let tloc = reg_loc("parameters", key);
        proof {
            lemma_pointer_of(Registry::Parameters, key@);
            assert(ptr@ == pointer_of(Registry::Parameters, key@));
        }
        match check_ptr(&s, &ptr, &tloc, &empty_active) {
            Ok(u) => {},
            Err(e) => {
                return Err(e);
            },
        }
        i += 1;
    }
    let mut i: usize = 0;
    while i < s.responses.len()
        invariant
            i <= s.responses@.len(),
            empty_active.deep_view() == Seq::<Seq<char>>::empty(),
            active_wf(s, empty_active.deep_view()),
            seed_defs_err(s, 0) is None,
            seed_params_err(s, 0) is None,
            seed_resps_err(s, 0) == seed_resps_err(s, i as int),
        decreases s.responses@.len() - i,
    {
        let key = &s.responses[i].0;
        let ptr = String::from_str("#/responses/").concat(key.as_str());
        let tloc = reg_loc("responses", key);
        proof {
            lemma_pointer_of(Registry::Responses, key@);
            assert(ptr@ == pointer_of(Registry::Responses, key@));
        }
        match check_ptr(&s, &ptr, &tloc, &empty_active) {
            Ok(u) => {},
            Err(e) => {
                return Err(e);
            },
        }
        i += 1;
    }
    let mut i: usize = 0;
    while i < s.paths.len()
        invariant
            i <= s.paths@.len(),
            empty_active.deep_view() == Seq::<Seq<char>>::empty(),
            active_wf(s, empty_active.deep_view()),
            seed_defs_err(s, 0) is None,
            seed_params_err(s, 0) is None,
            seed_resps_err(s, 0) is None,
            paths_err(s, 0) == paths_err(s, i as int),
        decreases s.paths@.len() - i,
    {
        let deps = refs_of_path_item(&s.paths[i].1);
        let tloc = reg_loc("paths", &s.paths[i].0);
        match check_deps(&s, &deps, 0, &tloc, &empty_active) {
            Ok(u) => {},
            Err(e) => {
                return Err(e);
            },
        }
        i += 1;
    }
    Ok(ResolvedSpec { spec: s })
}

/// A handle to the registry entry a pointer resolves to: the entry itself.
#[derive(Debug, PartialEq, Eq)]
pub enum Target<'a> {
    Definition(&'a SchemaOrRef),
    Param(&'a Parameter),
    Resp(&'a Response),
}

/// Resolves one pointer against the document and hands back the registry
/// entry it names: the handle's identity is the entry's identity. Fails
/// exactly where `check_ptr_spec` does, on a pointer of an unsupported
/// form, a dangling pointer, or a reference chain that cycles.
pub fn resolve_pointer<'a>(s: &'a Spec, pointer: &str) -> (r: Result<Target<'a>, ResolutionError>)
    ensures
        match r {
            Ok(t) => {
                &&& check_ptr_spec(*s, pointer@, Seq::empty(), Seq::empty()) is None
                &&& match t {
                    Target::Definition(sor) => pointer_target(pointer@) matches Some(pt)
                        && pt.0 == Registry::Definitions && assoc(s.definitions@, pt.1) == Some(
                        *sor,
                    ),
                    Target::Param(p) => pointer_target(pointer@) matches Some(pt) && pt.0
                        == Registry::Parameters && assoc(s.parameters@, pt.1) == Some(*p),
                    Target::Resp(resp) => pointer_target(pointer@) matches Some(pt) && pt.0
                        == Registry::Responses && assoc(s.responses@, pt.1) == Some(*resp),
                }
            },
            Err(e) => check_ptr_spec(*s, pointer@, Seq::empty(), Seq::empty()) == Some(e@),
        },
{
    let p = pointer.to_owned();
    let loc: Vec<PathSeg> = Vec::new();
    let empty_active: Vec<String> = Vec::new();
    proof {
        assert(loc.deep_view() =~= Seq::<PathSegV>::empty());
        assert(empty_active.deep_view() =~= Seq::<Seq<char>>::empty());
        assert(active_wf(*s, empty_active.deep_view()));
    }
    match check_ptr(s, &p, &loc, &empty_active) {
        Err(e) => Err(e),
        Ok(u) => match parse_pointer(pointer) {
            Option::None => {
                proof {
                    assert(false);
                }
                Err(ResolutionError::UnsupportedReference { pointer: p })
            },
            Option::Some((reg, key)) => match reg {
                Registry::Definitions => match assoc_get(&s.definitions, key.as_str()) {
                    Option::Some(entry) => Ok(Target::Definition(entry)),
                    Option::None => {
                        proof {
                            assert(false);
                        }
                        Err(ResolutionError::UnsupportedReference { pointer: p })
                    },
                },
                Registry::Parameters => match assoc_get(&s.parameters, key.as_str()) {
                    Option::Some(entry) => Ok(Target::Param(entry)),
                    Option::None => {
                        proof {
                            assert(false);
                        }
                        Err(ResolutionError::UnsupportedReference { pointer: p })
                    },
                },
                Registry::Responses => match assoc_get(&s.responses, key.as_str()) {
                    Option::Some(entry) => Ok(Target::Resp(entry)),
                    Option::None => {
                        proof {
                            assert(false);
                        }
                        Err(ResolutionError::UnsupportedReference { pointer: p })
                    },
                },
            },
        },
    }
}

/// Resolution of a well-formed pointer at an existing registry entry whose
/// own references resolve succeeds, whatever location it was referenced
/// from: success does not depend on where in the document the reference
/// stands.
pub proof fn lemma_resolution_success(s: Spec, p: Seq<char>, loc: Seq<PathSegV>)
    requires
        pointer_target(p) matches Some(t) && reg_has(s, t.0, t.1),
        check_deps_spec(
            s,
            target_refs(s, pointer_target(p)->Some_0.0, pointer_target(p)->Some_0.1),
            0,
            target_loc(pointer_target(p)->Some_0.0, pointer_target(p)->Some_0.1),
            seq![p],
        ) is None,
    ensures
        check_ptr_spec(s, p, loc, Seq::empty()) is None,
{
    assert(active_wf(s, Seq::empty()));
    assert(Seq::empty().push(p) =~= seq![p]);
}

/// A pointer of one of the three supported forms whose key is absent from
/// its registry resolves to a `DanglingReference` naming that exact
/// pointer and the location it was found at.
pub proof fn lemma_dangling(s: Spec, p: Seq<char>, loc: Seq<PathSegV>, active: Seq<Seq<char>>)
    requires
        active_wf(s, active),
        !active.contains(p),
        pointer_target(p) matches Some(t) && !reg_has(s, t.0, t.1),
    ensures
        check_ptr_spec(s, p, loc, active) == Some(
            ResolutionErrV::DanglingReference { pointer: p, location: loc },
        ),
{
}

/// A definition whose body is a reference to itself resolves to a
/// `CyclicReference` whose chain shows the pointer revisited, rather than
/// recursing forever.
pub proof fn lemma_self_cycle(s: Spec, key: Seq<char>, loc: Seq<PathSegV>)
    requires
        assoc(s.definitions@, key) matches Some(sor) && sor matches SchemaOrRef::Reference(q) && q@
            == pointer_of(Registry::Definitions, key),
    ensures
        check_ptr_spec(s, pointer_of(Registry::Definitions, key), loc, Seq::empty()) == Some(
            ResolutionErrV::CyclicReference {
                chain: seq![
                    pointer_of(Registry::Definitions, key),
                    pointer_of(Registry::Definitions, key),
                ],
            },
        ),
{
    let p = pointer_of(Registry::Definitions, key);
    lemma_pointer_of(Registry::Definitions, key);
    assert(active_wf(s, Seq::empty()));
    let a1 = Seq::empty().push(p);
    assert(a1 =~= seq![p]);
    assert(active_ok(s, p));
    assert(active_wf(s, a1));
    let sor = assoc(s.definitions@, key)->Some_0;
    assert(target_refs(s, Registry::Definitions, key) == seq![p]);
    assert(a1.contains(p));
    assert(check_ptr_spec(s, p, target_loc(Registry::Definitions, key), a1) == Some(
        ResolutionErrV::CyclicReference { chain: a1.push(p) },
    ));
    assert(a1.push(p) =~= seq![p, p]);
    assert(check_deps_spec(s, seq![p], 0, target_loc(Registry::Definitions, key), a1) == Some(
        ResolutionErrV::CyclicReference { chain: seq![p, p] },
    ));
}

} // verus!
