use vstd::prelude::*;

use std::collections::HashMap;

verus! {

broadcast use vstd::std_specs::hash::group_hash_axioms;

/// The operators a host type may overload.
#[derive(Clone, Copy, Debug, PartialEq, Eq, Structural, Hash)]
pub enum MetaMethod {
    Add,
    Sub,
    Mul,
    Div,
    Mod,
    Pow,
    Unm,
    IDiv,
    BAnd,
    BOr,
    BXor,
    BNot,
    Shl,
    Shr,
    Concat,
    Len,
    Eq,
    Lt,
    Le,
    Index,
    NewIndex,
    Call,
    ToString,
}

pub open spec fn meta_name(m: MetaMethod) -> Seq<char> {
    match m {
        MetaMethod::Add => "__add"@,
        MetaMethod::Sub => "__sub"@,
        MetaMethod::Mul => "__mul"@,
        MetaMethod::Div => "__div"@,
        MetaMethod::Mod => "__mod"@,
        MetaMethod::Pow => "__pow"@,
        MetaMethod::Unm => "__unm"@,
        MetaMethod::IDiv => "__idiv"@,
        MetaMethod::BAnd => "__band"@,
        MetaMethod::BOr => "__bor"@,
        MetaMethod::BXor => "__bxor"@,
        MetaMethod::BNot => "__bnot"@,
        MetaMethod::Shl => "__shl"@,
        MetaMethod::Shr => "__shr"@,
        MetaMethod::Concat => "__concat"@,
        MetaMethod::Len => "__len"@,
        MetaMethod::Eq => "__eq"@,
        MetaMethod::Lt => "__lt"@,
        MetaMethod::Le => "__le"@,
        MetaMethod::Index => "__index"@,
        MetaMethod::NewIndex => "__newindex"@,
        MetaMethod::Call => "__call"@,
        MetaMethod::ToString => "__tostring"@,
    }
}

impl MetaMethod {
    /// The key the engine looks the operator up under.
    pub fn name(&self) -> (r: &'static str)
        ensures
            r@ == meta_name(*self),
    {
        match self {
            MetaMethod::Add => "__add",
            MetaMethod::Sub => "__sub",
            MetaMethod::Mul => "__mul",
            MetaMethod::Div => "__div",
            MetaMethod::Mod => "__mod",
            MetaMethod::Pow => "__pow",
            MetaMethod::Unm => "__unm",
            MetaMethod::IDiv => "__idiv",
            MetaMethod::BAnd => "__band",
            MetaMethod::BOr => "__bor",
            MetaMethod::BXor => "__bxor",
            MetaMethod::BNot => "__bnot",
            MetaMethod::Shl => "__shl",
            MetaMethod::Shr => "__shr",
            MetaMethod::Concat => "__concat",
            MetaMethod::Len => "__len",
            MetaMethod::Eq => "__eq",
            MetaMethod::Lt => "__lt",
            MetaMethod::Le => "__le",
            MetaMethod::Index => "__index",
            MetaMethod::NewIndex => "__newindex",
            MetaMethod::Call => "__call",
            MetaMethod::ToString => "__tostring",
        }
    }
}

pub open spec fn pairs_view<C>(v: Seq<(String, C)>) -> Seq<(Seq<char>, C)> {
    v.map_values(|p: (String, C)| (p.0@, p.1))
}

pub open spec fn distinct_names<C>(v: Seq<(Seq<char>, C)>) -> bool {
    forall|i: int, j: int| 0 <= i < j < v.len() ==> #[trigger] v[i].0 != #[trigger] v[j].0
}

pub open spec fn distinct_metas<C>(v: Seq<(MetaMethod, C)>) -> bool {
    forall|i: int, j: int| 0 <= i < j < v.len() ==> #[trigger] v[i].0 != #[trigger] v[j].0
}

/// The methods and operator overloads a host type declares, each holding
/// the callback that implements it. A name or an operator declared twice
/// keeps the later callback.
pub struct UserDataMethods<C> {
    methods: Vec<(String, C)>,
    meta_methods: Vec<(MetaMethod, C)>,
}

impl<C> UserDataMethods<C> {
    pub closed spec fn methods_view(&self) -> Seq<(Seq<char>, C)> {
        pairs_view(self.methods@)
    }

    pub closed spec fn metas_view(&self) -> Seq<(MetaMethod, C)> {
        self.meta_methods@
    }

    pub open spec fn wf(&self) -> bool {
        distinct_names(self.methods_view()) && distinct_metas(self.metas_view())
    }

    pub fn new() -> (r: UserDataMethods<C>)
        ensures
            r.wf(),
            r.methods_view() == Seq::<(Seq<char>, C)>::empty(),
            r.metas_view() == Seq::<(MetaMethod, C)>::empty(),
    {
        UserDataMethods { methods: Vec::new(), meta_methods: Vec::new() }
    }

    /// Declares a method under `name`.
    pub fn add_method(&mut self, name: String, callback: C)
        requires
            old(self).wf(),
        ensures
            final(self).wf(),
            final(self).metas_view() == old(self).metas_view(),
            (exists|i: int|
                0 <= i < old(self).methods_view().len() && old(self).methods_view()[i].0
                    == name@) ==> (exists|i: int|
                0 <= i < old(self).methods_view().len() && old(self).methods_view()[i].0
                    == name@ && final(self).methods_view() == old(self).methods_view().update(
                    i,
                    (name@, callback),
                )),
            (forall|i: int|
                0 <= i < old(self).methods_view().len() ==> old(self).methods_view()[i].0
                    != name@) ==> final(self).methods_view() == old(self).methods_view().push(
                (name@, callback),
            ),
    {
        let ghost before = self.methods@;
        let mut i: usize = 0;
        while i < self.methods.len()
            invariant
                self.methods@ == before,
                self.meta_methods@ == old(self).meta_methods@,
                before == old(self).methods@,
                old(self).wf(),
                i <= before.len(),
                forall|j: int| 0 <= j < i ==> (#[trigger] pairs_view(before)[j]).0 != name@,
            decreases before.len() - i,
        {
            if self.methods[i].0 == name {
                self.methods.set(i, (name, callback));
                proof {
                    assert(pairs_view(self.methods@) =~= pairs_view(before).update(
                        i as int,
                        (name@, callback),
                    ));
                    assert(pairs_view(before)[i as int].0 == name@);
                }
                return;
            }
            i = i + 1;
        }
        self.methods.push((name, callback));
        assert(pairs_view(self.methods@) =~= pairs_view(before).push((name@, callback)));
    }

    /// Declares an overload of the operator `m`.
    pub fn add_meta_method(&mut self, m: MetaMethod, callback: C)
        requires
            old(self).wf(),
        ensures
            final(self).wf(),
            final(self).methods_view() == old(self).methods_view(),
            (exists|i: int|
                0 <= i < old(self).metas_view().len() && old(self).metas_view()[i].0 == m) ==> (exists|
                i: int,
            |
                0 <= i < old(self).metas_view().len() && old(self).metas_view()[i].0 == m
                    && final(self).metas_view() == old(self).metas_view().update(
                    i,
                    (m, callback),
                )),
            (forall|i: int| 0 <= i < old(self).metas_view().len() ==> old(self).metas_view()[i].0 != m)
                ==> final(self).metas_view() == old(self).metas_view().push((m, callback)),
    {
        let ghost before = self.meta_methods@;
        let mut i: usize = 0;
        while i < self.meta_methods.len()
            invariant
                self.meta_methods@ == before,
                self.methods@ == old(self).methods@,
                before == old(self).meta_methods@,
                old(self).wf(),
                i <= before.len(),
                forall|j: int| 0 <= j < i ==> (#[trigger] before[j]).0 != m,
            decreases before.len() - i,
        {
            if self.meta_methods[i].0 == m {
                self.meta_methods.set(i, (m, callback));
                return;
            }
            i = i + 1;
        }
        self.meta_methods.push((m, callback));
    }
}

/// What one key of a dispatch table holds.
#[derive(Debug, PartialEq)]
pub enum EntryValue<C> {
    /// A trampolined host callback.
    Callback(C),
    /// The method namespace: a table from method name to callback.
    Methods(Vec<(String, C)>),
    /// A lookup that consults the method namespace first and calls the
    /// explicit index overload only when the name is not a method.
    MethodsThenIndex(Vec<(String, C)>, C),
    /// The finalizer that drops the host value when the engine collects
    /// the object.
    Finalizer,
    /// The `false` that hides the table from scripts and stops them from
    /// replacing it.
    Locked,
}

/// One key of a dispatch table and what it holds.
#[derive(Debug, PartialEq)]
pub struct DispatchEntry<C> {
    pub key: String,
    pub value: EntryValue<C>,
}

pub ghost enum EntryView<C> {
    Callback(C),
    Methods(Seq<(Seq<char>, C)>),
    MethodsThenIndex(Seq<(Seq<char>, C)>, C),
    Finalizer,
    Locked,
}

pub open spec fn entry_view<C>(e: DispatchEntry<C>) -> (Seq<char>, EntryView<C>) {
    (
        e.key@,
        match e.value {
            EntryValue::Callback(c) => EntryView::Callback(c),
            EntryValue::Methods(ms) => EntryView::Methods(pairs_view(ms@)),
            EntryValue::MethodsThenIndex(ms, c) => EntryView::MethodsThenIndex(pairs_view(ms@), c),
            EntryValue::Finalizer => EntryView::Finalizer,
            EntryValue::Locked => EntryView::Locked,
        },
    )
}

pub open spec fn entries_view<C>(v: Seq<DispatchEntry<C>>) -> Seq<(Seq<char>, EntryView<C>)> {
    v.map_values(|e: DispatchEntry<C>| entry_view(e))
}

/// An index overload is folded into the method lookup when there are
/// methods, and has no key of its own then.
pub open spec fn folded_into_methods(m: MetaMethod, has_methods: bool) -> bool {
    has_methods && m == MetaMethod::Index
}

/// One entry per declared operator, in declaration order, but for a folded
/// index overload.
pub open spec fn operator_entries<C>(metas: Seq<(MetaMethod, C)>, has_methods: bool) -> Seq<
    (Seq<char>, EntryView<C>),
>
    decreases metas.len(),
{
    if metas.len() == 0 {
        Seq::empty()
    } else {
        let rest = operator_entries(metas.drop_last(), has_methods);
        let p = metas.last();
        if folded_into_methods(p.0, has_methods) {
            rest
        } else {
            rest.push((meta_name(p.0), EntryView::Callback(p.1)))
        }
    }
}

/// The callback of the (last) index overload declared.
pub open spec fn index_overload<C>(metas: Seq<(MetaMethod, C)>) -> Option<C>
    decreases metas.len(),
{
    if metas.len() == 0 {
        None
    } else if metas.last().0 == MetaMethod::Index {
        Some(metas.last().1)
    } else {
        index_overload(metas.drop_last())
    }
}

pub open spec fn index_entry<C>(methods: Seq<(Seq<char>, C)>, metas: Seq<(MetaMethod, C)>) -> Seq<
    (Seq<char>, EntryView<C>),
> {
    if methods.len() == 0 {
        Seq::empty()
    } else {
        match index_overload(metas) {
            Some(c) => seq![("__index"@, EntryView::MethodsThenIndex(methods, c))],
            None => seq![("__index"@, EntryView::Methods(methods))],
        }
    }
}

/// The dispatch table of a type with these methods and overloads: the
/// method namespace under `__index` (consulted before an index overload,
/// so method names shadow it), one key per other overload, the finalizer,
/// and the lock.
pub open spec fn dispatch_table<C>(methods: Seq<(Seq<char>, C)>, metas: Seq<(MetaMethod, C)>) -> Seq<
    (Seq<char>, EntryView<C>),
> {
    index_entry(methods, metas) + operator_entries(metas, methods.len() > 0) + seq![
        ("__gc"@, EntryView::Finalizer),
        ("__metatable"@, EntryView::Locked),
    ]
}

/// No key appears twice.
pub open spec fn distinct_keys<C>(entries: Seq<(Seq<char>, EntryView<C>)>) -> bool {
    forall|i: int, j: int|
        0 <= i < j < entries.len() ==> #[trigger] entries[i].0 != #[trigger] entries[j].0
}

/// Operators have distinct names, none of them a fixed key.
proof fn lemma_meta_names(a: MetaMethod, b: MetaMethod)
    ensures
        meta_name(a) == meta_name(b) ==> a == b,
        meta_name(a) != "__gc"@,
        meta_name(a) != "__metatable"@,
{
    reveal_strlit("__add");
    reveal_strlit("__sub");
    reveal_strlit("__mul");
    reveal_strlit("__div");
    reveal_strlit("__mod");
    reveal_strlit("__pow");
    reveal_strlit("__unm");
    reveal_strlit("__idiv");
    reveal_strlit("__band");
    reveal_strlit("__bor");
    reveal_strlit("__bxor");
    reveal_strlit("__bnot");
    reveal_strlit("__shl");
    reveal_strlit("__shr");
    reveal_strlit("__concat");
    reveal_strlit("__len");
    reveal_strlit("__eq");
    reveal_strlit("__lt");
    reveal_strlit("__le");
    reveal_strlit("__index");
    reveal_strlit("__newindex");
    reveal_strlit("__call");
    reveal_strlit("__tostring");
    reveal_strlit("__gc");
    reveal_strlit("__metatable");
    let x = meta_name(a);
    let y = meta_name(b);
    if x == "__gc"@ {
        assert(x.len() == 4);
        assert(x[2] == 'g');
    }
    if x == "__metatable"@ {
        assert(x.len() == 11);
    }
    if x == y {
        assert(x.len() == y.len());
        assert(x[2] == y[2]);
        assert(x[3] == y[3]);
        assert(x.len() > 4 ==> x[4] == y[4]);
        assert(x.len() > 5 ==> x[5] == y[5]);
    }
}

/// Each operator key names a declared operator that is not folded, and no
/// two are the same.
proof fn lemma_operator_keys<C>(metas: Seq<(MetaMethod, C)>, has_methods: bool)
    requires
        distinct_metas(metas),
    ensures
        distinct_keys(operator_entries(metas, has_methods)),
        forall|k: int|
            0 <= k < operator_entries(metas, has_methods).len() ==> exists|i: int|
                0 <= i < metas.len() && #[trigger] operator_entries(metas, has_methods)[k].0
                    == meta_name(metas[i].0) && !folded_into_methods(metas[i].0, has_methods),
    decreases metas.len(),
{
    if metas.len() > 0 {
        let init = metas.drop_last();
        assert forall|i: int, j: int| 0 <= i < j < init.len() implies #[trigger] init[i].0
            != #[trigger] init[j].0 by {
            assert(init[i] == metas[i] && init[j] == metas[j]);
        }
        lemma_operator_keys(init, has_methods);
        let rest = operator_entries(init, has_methods);
        let p = metas.last();
        let all = operator_entries(metas, has_methods);
        if !folded_into_methods(p.0, has_methods) {
            assert(all == rest.push((meta_name(p.0), EntryView::Callback(p.1))));
            assert forall|k: int| 0 <= k < rest.len() implies #[trigger] rest[k].0 != meta_name(
                p.0,
            ) by {
                let i = choose|i: int|
                    0 <= i < init.len() && #[trigger] rest[k].0 == meta_name(init[i].0)
                        && !folded_into_methods(init[i].0, has_methods);
                assert(metas[i] == init[i]);
                assert(metas[i].0 != metas[metas.len() - 1].0);
                lemma_meta_names(init[i].0, p.0);
            }
            assert forall|k: int| 0 <= k < all.len() implies exists|i: int|
                0 <= i < metas.len() && #[trigger] all[k].0 == meta_name(metas[i].0)
                    && !folded_into_methods(metas[i].0, has_methods) by {
                if k < rest.len() {
                    let i = choose|i: int|
                        0 <= i < init.len() && #[trigger] rest[k].0 == meta_name(init[i].0)
                            && !folded_into_methods(init[i].0, has_methods);
                    assert(metas[i] == init[i]);
                } else {
                    assert(all[k].0 == meta_name(metas[metas.len() - 1].0));
                }
            }
            assert forall|i: int, j: int| 0 <= i < j < all.len() implies #[trigger] all[i].0
                != #[trigger] all[j].0 by {
                if j == rest.len() {
                    assert(all[i] == rest[i]);
                } else {
                    assert(all[i] == rest[i] && all[j] == rest[j]);
                }
            }
        } else {
            assert forall|k: int| 0 <= k < all.len() implies exists|i: int|
                0 <= i < metas.len() && #[trigger] all[k].0 == meta_name(metas[i].0)
                    && !folded_into_methods(metas[i].0, has_methods) by {
                let i = choose|i: int|
                    0 <= i < init.len() && #[trigger] rest[k].0 == meta_name(init[i].0)
                        && !folded_into_methods(init[i].0, has_methods);
                assert(metas[i] == init[i]);
            }
        }
    }
}

/// A dispatch table never holds a key twice, so building it in the engine
/// overwrites nothing: the method namespace, each operator and the fixed
/// keys all keep their own entry.
pub proof fn lemma_dispatch_keys_distinct<C>(
    methods: Seq<(Seq<char>, C)>,
    metas: Seq<(MetaMethod, C)>,
)
    requires
        distinct_metas(metas),
    ensures
        distinct_keys(dispatch_table(methods, metas)),
{
    reveal_strlit("__gc");
    reveal_strlit("__metatable");
    reveal_strlit("__index");
    let has = methods.len() > 0;
    let head = index_entry(methods, metas);
    let ops = operator_entries(metas, has);
    let tail = seq![("__gc"@, EntryView::<C>::Finalizer), ("__metatable"@, EntryView::<C>::Locked)];
    let t = dispatch_table(methods, metas);
    lemma_operator_keys(metas, has);
    assert(t == head + ops + tail);
    assert forall|k: int| 0 <= k < ops.len() implies #[trigger] ops[k].0 != "__gc"@ && ops[k].0
        != "__metatable"@ && (has ==> ops[k].0 != "__index"@) by {
        let i = choose|i: int|
            0 <= i < metas.len() && #[trigger] ops[k].0 == meta_name(metas[i].0)
                && !folded_into_methods(metas[i].0, has);
        lemma_meta_names(metas[i].0, metas[i].0);
        lemma_meta_names(metas[i].0, MetaMethod::Index);
    }
    assert("__gc"@ != "__metatable"@) by {
        assert("__gc"@.len() != "__metatable"@.len());
    }
    assert("__index"@ != "__gc"@) by {
        assert("__index"@.len() != "__gc"@.len());
    }
    assert("__index"@ != "__metatable"@) by {
        assert("__index"@.len() != "__metatable"@.len());
    }
    assert forall|i: int, j: int| 0 <= i < j < t.len() implies #[trigger] t[i].0
        != #[trigger] t[j].0 by {
        let h = head.len() as int;
        let o = ops.len() as int;
        if j < h {
        } else if j < h + o {
            assert(t[j] == ops[j - h]);
            if i >= h {
                assert(t[i] == ops[i - h]);
            } else {
                assert(t[i] == head[i]);
            }
        } else {
            assert(t[j] == tail[j - h - o]);
            if i >= h + o {
                assert(t[i] == tail[i - h - o]);
            } else if i >= h {
                assert(t[i] == ops[i - h]);
            } else {
                assert(t[i] == head[i]);
            }
        }
    }
}

/// Lays out the dispatch table of a host type from what it declares.
pub fn build_dispatch_table<C>(declared: UserDataMethods<C>) -> (r: Vec<DispatchEntry<C>>)
    ensures
        entries_view(r@) == dispatch_table(declared.methods_view(), declared.metas_view()),
        declared.wf() ==> distinct_keys(entries_view(r@)),
{
    proof {
        if declared.wf() {
            lemma_dispatch_keys_distinct(declared.methods_view(), declared.metas_view());
        }
    }
    let UserDataMethods { methods, meta_methods } = declared;
    let mut metas = meta_methods;
    let has_methods = methods.len() > 0;
    let ghost all = metas@;
    assert(all.len() == metas.len());
    let mut operators: Vec<DispatchEntry<C>> = Vec::new();
    let mut index: Option<C> = None;
    let mut i: usize = 0;
    while metas.len() > 0
        invariant
            i <= all.len(),
            all.len() <= usize::MAX,
            metas@ == all.skip(i as int),
            entries_view(operators@) == operator_entries(all.take(i as int), has_methods),
            has_methods ==> index == index_overload(all.take(i as int)),
        decreases metas@.len(),
    {
        let (m, c) = metas.remove(0);
        proof {
            assert(all.take(i + 1).drop_last() =~= all.take(i as int));
            assert(all.take(i + 1).last() == all[i as int]);
            assert(all.skip(i as int)[0] == all[i as int]);
            assert(all.skip(i + 1) =~= all.skip(i as int).drop_first());
        }
        if has_methods && m == MetaMethod::Index {
            index = Some(c);
        } else {
            let ghost before = operators@;
            operators.push(DispatchEntry { key: m.name().to_string(), value: EntryValue::Callback(c) });
            assert(entries_view(operators@) =~= entries_view(before).push(
                (meta_name(m), EntryView::Callback(c)),
            ));
        }
        i = i + 1;
    }
    assert(all.take(i as int) =~= all);
    let mut r: Vec<DispatchEntry<C>> = Vec::new();
    if has_methods {
        let value = match index {
            Some(c) => EntryValue::MethodsThenIndex(methods, c),
            None => EntryValue::Methods(methods),
        };
        r.push(DispatchEntry { key: "__index".to_string(), value });
    }
    let ghost head = r@;
    let ghost ops = operators@;
    r.append(&mut operators);
    let ghost mid = r@;
    r.push(DispatchEntry { key: "__gc".to_string(), value: EntryValue::Finalizer });
    r.push(DispatchEntry { key: "__metatable".to_string(), value: EntryValue::Locked });
    proof {
        assert(mid =~= head + ops);
        assert(entries_view(head) =~= index_entry(pairs_view(methods@), all));
        assert(entries_view(r@) =~= entries_view(head) + entries_view(ops) + seq![
            ("__gc"@, EntryView::<C>::Finalizer),
            ("__metatable"@, EntryView::<C>::Locked),
        ]);
    }
    r
}

/// The next step of an index lookup on a type with both methods and an
/// index overload.
#[derive(Clone, Copy, Debug, PartialEq, Eq, Structural)]
pub enum IndexStep {
    /// The key names a method: the method is the result.
    ReturnMethod,
    /// The key names no method: the overload decides.
    CallOverload,
}

/// Method names shadow the index overload: it is called only for a key the
/// method namespace lacks.
pub fn index_step(method_found: bool) -> (r: IndexStep)
    ensures
        method_found <==> r == IndexStep::ReturnMethod,
        !method_found <==> r == IndexStep::CallOverload,
{
    if method_found {
        IndexStep::ReturnMethod
    } else {
        IndexStep::CallOverload
    }
}

/// The registry slot of the dispatch table cached for `key`, if any.
pub open spec fn cached_table(m: Map<u64, i32>, key: u64) -> Option<i32> {
    if m.contains_key(key) {
        Some(m[key])
    } else {
        None
    }
}

/// The cache after a table built for `key` and pinned under `id` is
/// offered to it: a table cached already is kept.
pub open spec fn after_record(m: Map<u64, i32>, key: u64, id: i32) -> Map<u64, i32> {
    if m.contains_key(key) {
        m
    } else {
        m.insert(key, id)
    }
}

/// The dispatch tables built so far in one embedding context, by host type.
/// Types are told apart by a key the embedding layer derives from the
/// type's identity.
pub struct DispatchCache {
    tables: HashMap<u64, i32>,
}

impl View for DispatchCache {
    type V = Map<u64, i32>;

    closed spec fn view(&self) -> Map<u64, i32> {
        self.tables@
    }
}

impl DispatchCache {
    pub fn new() -> (r: DispatchCache)
        ensures
            r@ == Map::<u64, i32>::empty(),
    {
        DispatchCache { tables: HashMap::new() }
    }

    /// The registry slot of the table built for the type `key`, if it was.
    pub fn table_for(&self, key: u64) -> (r: Option<i32>)
        ensures
            r == cached_table(self@, key),
    {
        match self.tables.get(&key) {
            Some(id) => Some(*id),
            None => None,
        }
    }

    /// Offers the table built for the type `key`, pinned under `id`; the
    /// slot to use from now on comes back. When a table for the type was
    /// cached meanwhile, that one stays and is returned.
    pub fn record(&mut self, key: u64, id: i32) -> (r: i32)
        ensures
            final(self)@ == after_record(old(self)@, key, id),
            r == (if old(self)@.contains_key(key) {
                old(self)@[key]
            } else {
                id
            }),
    {
        match self.tables.get(&key) {
            Some(existing) => *existing,
            None => {
                self.tables.insert(key, id);
                id
            },
        }
    }
}

/// Once a type's table is cached, every later lookup for that type gives
/// the same slot, the one `record` returned, and caching it leaves the
/// tables of every other type as they were; a newly built table pinned
/// under a slot no other type's table holds is not shared with another type.
pub proof fn lemma_cache_is_stable(m: Map<u64, i32>, key: u64, id: i32, other: u64)
    requires
        other != key,
    ensures
        !m.contains_key(key) && cached_table(m, other) != Some(id) ==> cached_table(
            after_record(m, key, id),
            key,
        ) != cached_table(after_record(m, key, id), other),
        cached_table(after_record(m, key, id), key) == Some(
            if m.contains_key(key) {
                m[key]
            } else {
                id
            },
        ),
        cached_table(after_record(after_record(m, key, id), key, id), key) == cached_table(
            after_record(m, key, id),
            key,
        ),
        cached_table(after_record(m, key, id), other) == cached_table(m, other),
{
}

} // verus!
