//! The registry of renderer factories: registration by factory type, creation
//! of renderers by type or by name, discovery by capability and precision, and
//! the shutdown handles of the renderers it created.
use vstd::prelude::*;
use crate::renderer::factory::{capability_list, RendererFactory, RendererInfo};
use crate::renderer::{all_precisions, DataPrecision, Renderer, RendererError};
use crate::text::{owned, str_eq};
use crate::text_order::{insert_sorted_unique, string_views, strictly_sorted};

verus! {

broadcast use vstd::seq::group_seq_axioms;

#[verifier::external_type_specification]
#[verifier::external_body]
#[verifier::reject_recursive_types(T)]
pub struct ExSender<T>(std::sync::mpsc::Sender<T>);

#[verifier::external_type_specification]
#[verifier::external_body]
#[verifier::reject_recursive_types(T)]
pub struct ExReceiver<T>(std::sync::mpsc::Receiver<T>);

#[verifier::external_type_specification]
#[verifier::external_body]
#[verifier::reject_recursive_types(T)]
pub struct ExMutex<T: ?Sized>(std::sync::Mutex<T>);

/// A new signal channel (`std::sync::mpsc::channel`): its sending and its
/// receiving end. Nothing is stated of the ends.
#[verifier::external_body]
fn signal_channel() -> (std::sync::mpsc::Sender<()>, std::sync::mpsc::Receiver<()>) {
    std::sync::mpsc::channel()
}

/// The receiving end behind a lock (`std::sync::Mutex::new`), so that the
/// manager can be shared between threads. Nothing is stated of the lock.
#[verifier::external_body]
fn guarded(rx: std::sync::mpsc::Receiver<()>) -> std::sync::Mutex<std::sync::mpsc::Receiver<()>> {
    std::sync::Mutex::new(rx)
}

/// Whether two type identifiers are equal (`TypeId`'s `==`, which compares
/// the identifiers' whole values).
#[verifier::external_body]
fn same_type_id(a: &std::any::TypeId, b: &std::any::TypeId) -> (r: bool)
    ensures
        r == (*a == *b),
{
    *a == *b
}

/// A factory registered under the identifier of its type.
#[derive(Debug)]
pub struct Registered<F: ?Sized> {
    /// The identifier under which the factory is registered.
    pub type_id: std::any::TypeId,
    /// The factory.
    pub factory: Box<F>,
}

/// A registered factory of any type.
pub type FactoryEntry = Registered<dyn RendererFactory>;

/// The entry of `factory` under `type_id`.
fn registered<F: ?Sized>(type_id: std::any::TypeId, factory: Box<F>) -> (r: Registered<F>)
    ensures
        r.type_id == type_id,
        r.factory == factory,
{
    Registered { type_id, factory }
}

/// What creation hands back: the renderer, the end on which it receives the
/// shutdown signal, and the end on which it confirms its shutdown.
pub type Created = (
    Box<dyn Renderer>,
    std::sync::mpsc::Receiver<()>,
    std::sync::mpsc::Sender<()>,
);

/// What the manager keeps of a renderer it created, to shut it down later.
#[derive(Debug)]
pub struct ShutdownHandle {
    /// The identifier the manager assigned to the renderer.
    pub renderer_id: u64,
    /// The end on which the shutdown signal is sent.
    pub shutdown: std::sync::mpsc::Sender<()>,
    /// The end on which the renderer's confirmation arrives.
    pub confirmation: std::sync::Mutex<std::sync::mpsc::Receiver<()>>,
    /// How long, in milliseconds, to wait for the confirmation.
    pub timeout_ms: u64,
}

/// The type identifiers of the entries, in order.
pub open spec fn type_ids(es: Seq<FactoryEntry>) -> Seq<std::any::TypeId> {
    Seq::new(es.len(), |i: int| es[i].type_id)
}

/// The names of the entries' factories, in order.
pub open spec fn factory_names(es: Seq<FactoryEntry>) -> Seq<Seq<char>> {
    Seq::new(es.len(), |i: int| es[i].factory.info_name())
}

/// The shutdown times, in milliseconds, of shutdown handles, in order.
pub open spec fn handle_timeouts(hs: Seq<ShutdownHandle>) -> Seq<u64> {
    Seq::new(hs.len(), |i: int| hs[i].timeout_ms)
}

/// The renderer identifiers of shutdown handles, in order.
pub open spec fn handle_ids(hs: Seq<ShutdownHandle>) -> Seq<u64> {
    Seq::new(hs.len(), |i: int| hs[i].renderer_id)
}

/// Whether `info` is the information of the factory of entry `e`.
pub open spec fn describes(info: RendererInfo, e: FactoryEntry) -> bool {
    &&& info.name@ == e.factory.info_name()
    &&& info.capabilities@ == e.factory.info_capabilities()
    &&& info.parameters@ == e.factory.info_parameters()
    &&& info.timeout_microseconds == e.factory.info_timeout()
}

/// Whether `infos` are, in order, the information of the entries' factories.
pub open spec fn describe_all(infos: Seq<RendererInfo>, es: Seq<FactoryEntry>) -> bool {
    &&& infos.len() == es.len()
    &&& forall|k: int| 0 <= k < es.len() ==> describes(#[trigger] infos[k], es[k])
}

/// Whether the factory of entry `e` lists the capability `c`, compared exactly.
pub open spec fn offers(e: FactoryEntry, c: Seq<char>) -> bool {
    capability_list(e.factory.info_capabilities()).contains(c)
}

/// Whether some factory of `es` lists the capability `c`.
pub open spec fn offered_by_some(es: Seq<FactoryEntry>, c: Seq<char>) -> bool {
    exists|k: int| 0 <= k < es.len() && offers(#[trigger] es[k], c)
}

/// Whether the factory of entry `e` accepts the precision `p`: checked with an
/// empty parameter text, it does not refuse `p` for want of support.
pub open spec fn handles_precision(e: FactoryEntry, p: DataPrecision) -> bool {
    !e.factory.rejects_precision(p, ""@)
}

/// Whether some factory of `es` accepts the precision `p`.
pub open spec fn precision_supported(es: Seq<FactoryEntry>, p: DataPrecision) -> bool {
    exists|k: int| 0 <= k < es.len() && handles_precision(#[trigger] es[k], p)
}

/// The supported precisions that a manager lists are exactly those for which
/// the search by precision finds a factory, each listed once.
pub proof fn law_supported_precisions_are_found(es: Seq<FactoryEntry>, p: DataPrecision)
    ensures
        all_precisions().filter(|q: DataPrecision| precision_supported(es, q)).contains(p)
            <==> es.filter(|e: FactoryEntry| handles_precision(e, p)).len() > 0,
        all_precisions().filter(|q: DataPrecision| precision_supported(es, q)).no_duplicates(),
{
    broadcast use vstd::seq_lib::group_filter_ensures;

    let sup = |q: DataPrecision| precision_supported(es, q);
    let found = |e: FactoryEntry| handles_precision(e, p);
    let listed = all_precisions().filter(sup);
    let idx: int = match p {
        DataPrecision::F16 => 0,
        DataPrecision::F32 => 1,
        DataPrecision::F64 => 2,
        DataPrecision::BFloat16 => 3,
    };
    assert(all_precisions()[idx] == p);
    if precision_supported(es, p) {
        let k = choose|k: int| 0 <= k < es.len() && handles_precision(#[trigger] es[k], p);
        es.lemma_filter_contains(found, k);
        all_precisions().lemma_filter_contains(sup, idx);
    }
    if es.filter(found).len() > 0 {
        es.lemma_filter_pred(found, 0);
        es.lemma_filter_contains_rev(found, es.filter(found)[0]);
        all_precisions().lemma_filter_contains(sup, idx);
    }
    if listed.contains(p) {
        let j = choose|j: int| 0 <= j < listed.len() && listed[j] == p;
        all_precisions().lemma_filter_pred(sup, j);
    }
    assert(listed.no_duplicates()) by {
        reveal_with_fuel(Seq::filter, 5);
        assert(all_precisions().drop_last().drop_last().drop_last().drop_last()
            =~= Seq::<DataPrecision>::empty());
    }
}

/// The filter of a prefix one element longer.
proof fn lemma_filter_step<A>(s: Seq<A>, i: int, pred: spec_fn(A) -> bool)
    requires
        0 <= i < s.len(),
    ensures
        s.subrange(0, i + 1).filter(pred) == if pred(s[i]) {
            s.subrange(0, i).filter(pred).push(s[i])
        } else {
            s.subrange(0, i).filter(pred)
        },
{
    reveal(Seq::filter);
    assert(s.subrange(0, i + 1).drop_last() =~= s.subrange(0, i));
}

/// A filter is empty exactly when no element passes.
proof fn lemma_filter_empty<A>(s: Seq<A>, pred: spec_fn(A) -> bool)
    ensures
        s.filter(pred).len() == 0 <==> forall|k: int| 0 <= k < s.len() ==> !pred(#[trigger] s[k]),
    decreases s.len(),
{
    reveal(Seq::filter);
    if s.len() > 0 {
        lemma_filter_empty(s.drop_last(), pred);
        assert forall|k: int| 0 <= k < s.len() - 1 implies #[trigger] s.drop_last()[k] == s[k] by {}
        if s.filter(pred).len() == 0 {
            assert(!pred(s.last()));
            assert forall|k: int| 0 <= k < s.len() implies !pred(#[trigger] s[k]) by {
                if k < s.len() - 1 {
                    assert(s.drop_last()[k] == s[k]);
                }
            }
        } else if !pred(s.last()) {
            let k = choose|k: int| 0 <= k < s.drop_last().len() && pred(#[trigger] s.drop_last()[k]);
            assert(s[k] == s.drop_last()[k]);
        }
    }
}

/// Registry of renderer factories, one per factory type, that creates renderers
/// and keeps a shutdown handle for each renderer it created. The factories are
/// a vector with distinct type identifiers: over a `HashMap` keyed by `TypeId`
/// Verus accepts `insert` but proves nothing of the contents, not even the
/// length after one insert. Renderers are shut down by whoever holds the
/// handles (`take_shutdown_handles`); a verified type cannot implement `Drop`.
#[derive(Debug)]
pub struct RendererManager {
    factories: Vec<FactoryEntry>,
    renderer_shutdowns: Vec<ShutdownHandle>,
    next_renderer_id: u64,
}

impl RendererManager {
    /// The registered factories, in the order of registration.
    pub closed spec fn entries(&self) -> Seq<FactoryEntry> {
        self.factories@
    }

    /// The identifiers of the renderers whose shutdown handles are kept.
    pub closed spec fn tracked_ids(&self) -> Seq<u64> {
        handle_ids(self.renderer_shutdowns@)
    }

    /// The shutdown times, in milliseconds, of the renderers created so far,
    /// in order of creation.
    pub closed spec fn tracked_timeouts(&self) -> Seq<u64> {
        handle_timeouts(self.renderer_shutdowns@)
    }

    /// The identifier the next created renderer gets.
    pub closed spec fn next_id(&self) -> u64 {
        self.next_renderer_id
    }

    /// No factory type is registered twice; the tracked identifiers are
    /// distinct and all below the next one, which is positive.
    pub open spec fn wf(&self) -> bool {
        &&& type_ids(self.entries()).no_duplicates()
        &&& self.tracked_ids().no_duplicates()
        &&& forall|k: int|
            0 <= k < self.tracked_ids().len() ==> #[trigger] self.tracked_ids()[k] < self.next_id()
        &&& self.next_id() >= 1
    }

    /// An empty manager: no factory, no renderer.
    pub fn new() -> (r: Self)
        ensures
            r.wf(),
            r.entries().len() == 0,
            r.tracked_ids().len() == 0,
            r.tracked_timeouts().len() == 0,
    {
        let r = RendererManager {
            factories: Vec::new(),
            renderer_shutdowns: Vec::new(),
            next_renderer_id: 1,
        };
        assert(r.tracked_ids() =~= Seq::<u64>::empty());
        r
    }

    /// The index of the factory registered under `type_id`, if one is.
    fn position_of_type(&self, type_id: &std::any::TypeId) -> (r: Option<usize>)
        ensures
            match r {
                Some(k) => k < self.entries().len() && type_ids(self.entries())[k as int]
                    == *type_id,
                None => !type_ids(self.entries()).contains(*type_id),
            },
    {
        let mut i: usize = 0;
        while i < self.factories.len()
            invariant
                i <= self.factories.len(),
                forall|j: int| 0 <= j < i ==> #[trigger] type_ids(self.factories@)[j] != *type_id,
            decreases self.factories.len() - i,
        {
            if same_type_id(&self.factories[i].type_id, type_id) {
                return Some(i);
            }
            i = i + 1;
        }
        None
    }

    /// Adds `entry`, unless a factory is registered under its identifier already.
    fn insert_entry(&mut self, entry: FactoryEntry) -> (r: Result<bool, RendererError>)
        requires
            old(self).wf(),
        ensures
            final(self).wf(),
            final(self).tracked_ids() == old(self).tracked_ids(),
            final(self).tracked_timeouts() == old(self).tracked_timeouts(),
            final(self).next_id() == old(self).next_id(),
            if type_ids(old(self).entries()).contains(entry.type_id) {
                &&& r matches Err(RendererError::FactoryAlreadyRegistered(t)) && t == entry.type_id
                &&& final(self).entries() == old(self).entries()
            } else {
                &&& r matches Ok(b) && b
                &&& final(self).entries() == old(self).entries().push(entry)
            },
    {
        if self.position_of_type(&entry.type_id).is_some() {
            return Err(RendererError::FactoryAlreadyRegistered(entry.type_id));
        }
        let ghost before = self.factories@;
        let ghost t = entry.type_id;
        self.factories.push(entry);
        assert(type_ids(self.factories@) =~= type_ids(before).push(t));
        Ok(true)
    }

    /// Registers `factory` under `type_id`, unless a factory is registered under
    /// that identifier already.
    pub fn register_as(&mut self, type_id: std::any::TypeId, factory: Box<dyn RendererFactory>) -> (r:
        Result<bool, RendererError>)
        requires
            old(self).wf(),
        ensures
            final(self).wf(),
            final(self).tracked_ids() == old(self).tracked_ids(),
            final(self).tracked_timeouts() == old(self).tracked_timeouts(),
            final(self).next_id() == old(self).next_id(),
            if type_ids(old(self).entries()).contains(type_id) {
                &&& r matches Err(RendererError::FactoryAlreadyRegistered(t)) && t == type_id
                &&& final(self).entries() == old(self).entries()
            } else {
                &&& r matches Ok(b) && b
                &&& final(self).entries().len() == old(self).entries().len() + 1
                &&& final(self).entries().drop_last() == old(self).entries()
                &&& final(self).entries().last().type_id == type_id
                &&& final(self).entries().last().factory == factory
            },
    {
        let entry = registered(type_id, factory);
        let r = self.insert_entry(entry);
        assert(r is Ok ==> self.entries().last() == entry);
        r
    }

    /// Registers `factory` under the identifier of its type; a second factory of
    /// one type is refused.
    pub fn register(&mut self, factory: Box<dyn RendererFactory>) -> (r: Result<
        bool,
        RendererError,
    >)
        requires
            old(self).wf(),
        ensures
            final(self).wf(),
            final(self).tracked_ids() == old(self).tracked_ids(),
            final(self).tracked_timeouts() == old(self).tracked_timeouts(),
            final(self).next_id() == old(self).next_id(),
            match r {
                Ok(b) => {
                    &&& b
                    &&& !type_ids(old(self).entries()).contains(final(self).entries().last().type_id)
                    &&& final(self).entries().len() == old(self).entries().len() + 1
                    &&& final(self).entries().drop_last() == old(self).entries()
                    &&& final(self).entries().last().factory == factory
                },
                Err(e) => e matches RendererError::FactoryAlreadyRegistered(t) && type_ids(
                    old(self).entries(),
                ).contains(t) && final(self).entries() == old(self).entries(),
            },
    {
        let type_id = factory.factory_type_id();
        let entry = registered(type_id, factory);
        let r = self.insert_entry(entry);
        assert(r is Ok ==> self.entries().last() == entry);
        r
    }

    /// The number of registered factories.
    pub fn get_factory_count(&self) -> (r: usize)
        ensures
            r == self.entries().len(),
    {
        self.factories.len()
    }

    /// The number of renderers whose shutdown handles are kept.
    pub fn active_renderer_count(&self) -> (r: usize)
        ensures
            r == self.tracked_ids().len(),
    {
        self.renderer_shutdowns.len()
    }
}

/// The message of the refusal to create a renderer when every identifier has
/// been handed out.
pub open spec fn ids_exhausted_message() -> Seq<char> {
    "renderer identifiers exhausted"@
}

/// Whether `err` is the refusal that checking with the entry's factory gives:
/// the precision, when the factory does not support it, or else its parameter
/// error.
pub open spec fn validation_refusal(
    e: FactoryEntry,
    precision: DataPrecision,
    parameters: Seq<char>,
    err: RendererError,
) -> bool {
    if e.factory.rejects_precision(precision, parameters) {
        err matches RendererError::UnsupportedPrecision(q) && q == precision
    } else {
        err matches RendererError::InvalidParameters(m) && m@ == e.factory.parameter_error(
            precision,
            parameters,
        )
    }
}

/// Whether `err` is the refusal that creating with the entry's factory gives:
/// the precision, when the factory does not support it; a creation failure,
/// when the factory fails for another reason; or else its parameter error.
pub open spec fn creation_refusal(
    e: FactoryEntry,
    precision: DataPrecision,
    parameters: Seq<char>,
    err: RendererError,
) -> bool {
    if e.factory.rejects_precision(precision, parameters) {
        err matches RendererError::UnsupportedPrecision(q) && q == precision
    } else if e.factory.creation_failed(precision, parameters) {
        err matches RendererError::CreationFailed(m) && m@ == e.factory.parameter_error(
            precision,
            parameters,
        )
    } else {
        err matches RendererError::InvalidParameters(m) && m@ == e.factory.parameter_error(
            precision,
            parameters,
        )
    }
}

/// What creating a renderer with the factory of entry `e` leaves behind: the factory's
/// refusal with the manager unchanged; a refusal when the identifiers are
/// exhausted; or the new renderer, stopped, with no frame rendered, in the
/// requested precision and under the next identifier, whose shutdown handle
/// the manager keeps.
pub open spec fn creation_outcome(
    before: RendererManager,
    after: RendererManager,
    e: FactoryEntry,
    precision: DataPrecision,
    parameters: Seq<char>,
    r: Result<Created, RendererError>,
) -> bool {
    &&& after.entries() == before.entries()
    &&& if !e.factory.accepts(precision, parameters) {
        &&& r matches Err(err) && (err is UnsupportedPrecision <==> e.factory.rejects_precision(
            precision,
            parameters,
        )) && creation_refusal(e, precision, parameters, err)
        &&& after.tracked_ids() == before.tracked_ids()
        &&& after.tracked_timeouts() == before.tracked_timeouts()
        &&& after.next_id() == before.next_id()
    } else if before.next_id() == u64::MAX {
        &&& r matches Err(RendererError::CreationFailed(m)) && m@ == ids_exhausted_message()
        &&& after.tracked_ids() == before.tracked_ids()
        &&& after.tracked_timeouts() == before.tracked_timeouts()
        &&& after.next_id() == before.next_id()
    } else {
        &&& r matches Ok(c) && c.0.id_spec() == before.next_id() && c.0.precision_spec()
            == precision && !c.0.running_spec() && c.0.frames_spec() == 0 && c.0.name_spec()
            == e.factory.created_name(precision, parameters) && after.tracked_timeouts()
            == before.tracked_timeouts().push(c.0.shutdown_timeout_spec())
        &&& after.tracked_ids() == before.tracked_ids().push(before.next_id())
        &&& after.next_id() == before.next_id() + 1
    }
}

/// Whether the capability names of `info` include `capability`, compared
/// exactly.
fn lists_capability(info: &RendererInfo, capability: &str) -> (r: bool)
    ensures
        r == capability_list(info.capabilities@).contains(capability@),
{
    let caps = info.get_capabilities();
    let ghost list = capability_list(info.capabilities@);
    let mut j: usize = 0;
    while j < caps.len()
        invariant
            j <= caps.len(),
            list == capability_list(info.capabilities@),
            caps.len() == list.len(),
            forall|k: int| 0 <= k < caps.len() ==> (#[trigger] caps[k])@ == list[k],
            forall|k: int| 0 <= k < j ==> #[trigger] list[k] != capability@,
        decreases caps.len() - j,
    {
        if str_eq(caps[j], capability) {
            assert(list[j as int] == capability@);
            return true;
        }
        j = j + 1;
    }
    false
}

/// Assigns the identifier `id` to a boxed renderer.
fn assign_id(renderer: &mut Box<dyn Renderer>, id: u64)
    ensures
        final(renderer).id_spec() == id,
        final(renderer).running_spec() == old(renderer).running_spec(),
        final(renderer).frames_spec() == old(renderer).frames_spec(),
        final(renderer).precision_spec() == old(renderer).precision_spec(),
        final(renderer).name_spec() == old(renderer).name_spec(),
        final(renderer).shutdown_timeout_spec() == old(renderer).shutdown_timeout_spec(),
{
    renderer.assign_unique_id(id);
}

/// What creating a renderer by factory name leaves behind: a refusal naming
/// `name` when no factory has that name, the manager unchanged; otherwise what
/// creating with the first factory of that name leaves behind.
pub open spec fn creation_by_name(
    before: RendererManager,
    after: RendererManager,
    name: Seq<char>,
    precision: DataPrecision,
    parameters: Seq<char>,
    r: Result<Created, RendererError>,
) -> bool {
    match factory_names(before.entries()).index_of_first(name) {
        None => {
            &&& r matches Err(RendererError::RendererNotFoundByName(n)) && n@ == name
            &&& after == before
        },
        Some(k) => creation_outcome(before, after, before.entries()[k], precision, parameters, r),
    }
}

/// What checking parameters by factory name answers: a refusal naming `name`
/// when no factory has that name; otherwise the verdict of the first factory of
/// that name.
pub open spec fn validation_by_name(
    m: RendererManager,
    name: Seq<char>,
    precision: DataPrecision,
    parameters: Seq<char>,
    r: Result<(), RendererError>,
) -> bool {
    match factory_names(m.entries()).index_of_first(name) {
        None => r matches Err(RendererError::RendererNotFoundByName(n)) && n@ == name,
        Some(k) => {
            &&& r is Ok <==> m.entries()[k].factory.accepts(precision, parameters)
            &&& (r matches Err(e) && e is UnsupportedPrecision) <==> m.entries()[
                k
            ].factory.rejects_precision(precision, parameters)
            &&& r matches Err(err) ==> validation_refusal(m.entries()[k], precision, parameters, err)
        },
    }
}

/// Checking parameters by name and creating by name agree: on one manager,
/// with one name, precision and parameter text, the check passes exactly when
/// creation gives a renderer, as long as identifiers remain; both refuse an
/// unsupported precision alike, and an unknown name alike.
pub proof fn law_validation_agrees_with_creation(
    before: RendererManager,
    after: RendererManager,
    name: Seq<char>,
    precision: DataPrecision,
    parameters: Seq<char>,
    v: Result<(), RendererError>,
    c: Result<Created, RendererError>,
)
    requires
        before.next_id() < u64::MAX,
        validation_by_name(before, name, precision, parameters, v),
        creation_by_name(before, after, name, precision, parameters, c),
    ensures
        v is Ok <==> c is Ok,
        (v matches Err(e) && e is UnsupportedPrecision) <==> (c matches Err(e)
            && e is UnsupportedPrecision),
        !factory_names(before.entries()).contains(name) ==> (v matches Err(e)
            && e is RendererNotFoundByName) && (c matches Err(e) && e is RendererNotFoundByName),
{
    if !factory_names(before.entries()).contains(name) {
        lemma_no_index(factory_names(before.entries()), name);
    }
}

/// A factory that registration added is the one that a lookup by its name
/// finds, unless an earlier factory has that name; a name that no factory has
/// is found by no lookup.
pub proof fn law_registered_factory_found_by_name(
    before: RendererManager,
    after: RendererManager,
    other: Seq<char>,
)
    requires
        after.entries().len() == before.entries().len() + 1,
        after.entries().drop_last() == before.entries(),
    ensures
        !factory_names(before.entries()).contains(after.entries().last().factory.info_name())
            ==> factory_names(after.entries()).index_of_first(
            after.entries().last().factory.info_name(),
        ) == Some(before.entries().len() as int),
        (!factory_names(before.entries()).contains(other) && other
            != after.entries().last().factory.info_name()) ==> factory_names(
            after.entries(),
        ).index_of_first(other) is None,
{
    let name = after.entries().last().factory.info_name();
    let n = before.entries().len() as int;
    assert(factory_names(after.entries()) =~= factory_names(before.entries()).push(name)) by {
        assert forall|i: int| 0 <= i < n implies after.entries()[i] == #[trigger] before.entries()[i] by {
            assert(after.entries().drop_last()[i] == after.entries()[i]);
        }
    }
    if !factory_names(before.entries()).contains(name) {
        assert forall|j: int| 0 <= j < n implies #[trigger] factory_names(after.entries())[j] != name by {
            assert(factory_names(after.entries())[j] == factory_names(before.entries())[j]);
        }
        lemma_first_index(factory_names(after.entries()), name, n);
    }
    if !factory_names(before.entries()).contains(other) && other != name {
        assert(!factory_names(after.entries()).contains(other)) by {
            if factory_names(after.entries()).contains(other) {
                let j = choose|j: int|
                    0 <= j < factory_names(after.entries()).len() && factory_names(after.entries())[j]
                        == other;
                if j < n {
                    assert(factory_names(before.entries())[j] == other);
                }
            }
        }
        lemma_no_index(factory_names(after.entries()), other);
    }
}

/// Renderers created one after the other get different identifiers, and both
/// are tracked.
pub proof fn law_created_ids_differ(
    m0: RendererManager,
    m1: RendererManager,
    m2: RendererManager,
    e1: FactoryEntry,
    e2: FactoryEntry,
    p1: DataPrecision,
    p2: DataPrecision,
    s1: Seq<char>,
    s2: Seq<char>,
    c1: Result<Created, RendererError>,
    c2: Result<Created, RendererError>,
)
    requires
        m0.wf(),
        creation_outcome(m0, m1, e1, p1, s1, c1),
        creation_outcome(m1, m2, e2, p2, s2, c2),
        c1 is Ok,
        c2 is Ok,
    ensures
        c1->Ok_0.0.id_spec() != c2->Ok_0.0.id_spec(),
        m2.tracked_ids().contains(c1->Ok_0.0.id_spec()),
        m2.tracked_ids().contains(c2->Ok_0.0.id_spec()),
{
    assert(m2.tracked_ids()[m0.tracked_ids().len() as int] == c1->Ok_0.0.id_spec());
    assert(m2.tracked_ids()[m0.tracked_ids().len() + 1int] == c2->Ok_0.0.id_spec());
}

/// The three parts of what creation hands back.
fn created<R: ?Sized>(
    renderer: Box<R>,
    shutdown: std::sync::mpsc::Receiver<()>,
    confirmation: std::sync::mpsc::Sender<()>,
) -> (r: (Box<R>, std::sync::mpsc::Receiver<()>, std::sync::mpsc::Sender<()>))
    ensures
        r.0 == renderer,
{
    (renderer, shutdown, confirmation)
}

impl RendererManager {
    /// The index of the first factory named `name`, with its information.
    fn position_of_name(&self, name: &str) -> (r: Option<(usize, RendererInfo)>)
        ensures
            match r {
                Some((k, info)) => {
                    &&& k < self.entries().len()
                    &&& factory_names(self.entries())[k as int] == name@
                    &&& forall|j: int| 0 <= j < k ==> #[trigger] factory_names(self.entries())[j] != name@
                    &&& describes(info, self.entries()[k as int])
                },
                None => !factory_names(self.entries()).contains(name@),
            },
    {
        let mut i: usize = 0;
        while i < self.factories.len()
            invariant
                i <= self.factories.len(),
                forall|j: int| 0 <= j < i ==> #[trigger] factory_names(self.factories@)[j] != name@,
            decreases self.factories.len() - i,
        {
            let entry = &self.factories[i];
            let info = entry.factory.get_info();
            if str_eq(info.name.as_str(), name) {
                return Some((i, info));
            }
            i = i + 1;
        }
        None
    }

    /// Passes on a factory's refusal; otherwise gives the new renderer the next
    /// identifier and keeps its shutdown handle.
    fn setup_renderer_tracking(&mut self, made: Result<Box<dyn Renderer>, RendererError>) -> (r:
        Result<Created, RendererError>)
        requires
            old(self).wf(),
        ensures
            final(self).wf(),
            final(self).entries() == old(self).entries(),
            match made {
                Err(e) => {
                    &&& r matches Err(f) && f == e
                    &&& final(self).tracked_ids() == old(self).tracked_ids()
                    &&& final(self).tracked_timeouts() == old(self).tracked_timeouts()
                    &&& final(self).next_id() == old(self).next_id()
                },
                Ok(b) => if old(self).next_id() == u64::MAX {
                    &&& r matches Err(RendererError::CreationFailed(m)) && m@
                        == ids_exhausted_message()
                    &&& final(self).tracked_ids() == old(self).tracked_ids()
                    &&& final(self).tracked_timeouts() == old(self).tracked_timeouts()
                    &&& final(self).next_id() == old(self).next_id()
                } else {
                    &&& r matches Ok(c) && c.0.id_spec() == old(self).next_id()
                        && c.0.precision_spec() == b.precision_spec() && c.0.running_spec()
                        == b.running_spec() && c.0.frames_spec() == b.frames_spec()
                        && c.0.name_spec() == b.name_spec() && c.0.shutdown_timeout_spec()
                        == b.shutdown_timeout_spec() && final(self).tracked_timeouts()
                        == old(self).tracked_timeouts().push(b.shutdown_timeout_spec())
                    &&& final(self).tracked_ids() == old(self).tracked_ids().push(
                        old(self).next_id(),
                    )
                    &&& final(self).next_id() == old(self).next_id() + 1
                },
            },
    {
        let renderer = match made {
            Ok(renderer) => renderer,
            Err(e) => {
                return Err(e);
            },
        };
        if self.next_renderer_id == u64::MAX {
            return Err(RendererError::CreationFailed(owned("renderer identifiers exhausted")));
        }
        let id = self.next_renderer_id;
        let mut renderer = renderer;
        assign_id(&mut renderer, id);
        let timeout_ms = renderer.shutdown_timeout_ms();
        let (shutdown_tx, shutdown_rx) = signal_channel();
        let (confirm_tx, confirm_rx) = signal_channel();
        let ghost before = self.renderer_shutdowns@;
        self.renderer_shutdowns.push(
            ShutdownHandle {
                renderer_id: id,
                shutdown: shutdown_tx,
                confirmation: guarded(confirm_rx),
                timeout_ms,
            },
        );
        assert(handle_ids(self.renderer_shutdowns@) =~= handle_ids(before).push(id));
        assert(handle_timeouts(self.renderer_shutdowns@) =~= handle_timeouts(before).push(timeout_ms));
        self.next_renderer_id = id + 1;
        let c = created(renderer, shutdown_rx, confirm_tx);
        Ok(c)
    }

    /// Creates a renderer with the factory registered under `type_id`, and keeps
    /// its shutdown handle.
    pub fn create(&mut self, type_id: std::any::TypeId, precision: DataPrecision, parameters: &str) -> (r:
        Result<Created, RendererError>)
        requires
            old(self).wf(),
        ensures
            final(self).wf(),
            match type_ids(old(self).entries()).index_of_first(type_id) {
                None => {
                    &&& r matches Err(RendererError::RendererNotFound(t)) && t == type_id
                    &&& *final(self) == *old(self)
                },
                Some(k) => creation_outcome(
                    *old(self),
                    *final(self),
                    old(self).entries()[k],
                    precision,
                    parameters@,
                    r,
                ),
            },
    {
        proof {
            type_ids(self.entries()).index_of_first_ensures(type_id);
        }
        let k = match self.position_of_type(&type_id) {
            Some(k) => k,
            None => {
                return Err(RendererError::RendererNotFound(type_id));
            },
        };
        proof {
            lemma_distinct_index(type_ids(self.entries()), type_id, k as int);
        }
        let entry = &self.factories[k];
        let made = entry.factory.create(precision, parameters);
        self.setup_renderer_tracking(made)
    }

    /// Creates a renderer with the first factory named `name`, and keeps its
    /// shutdown handle. Names are compared exactly, case included.
    pub fn create_by_name(&mut self, name: &str, precision: DataPrecision, parameters: &str) -> (r:
        Result<Created, RendererError>)
        requires
            old(self).wf(),
        ensures
            final(self).wf(),
            creation_by_name(*old(self), *final(self), name@, precision, parameters@, r),
    {
        let k = match self.position_of_name(name) {
            Some((k, _)) => k,
            None => {
                proof {
                    lemma_no_index(factory_names(self.entries()), name@);
                }
                return Err(RendererError::RendererNotFoundByName(owned(name)));
            },
        };
        proof {
            lemma_first_index(factory_names(self.entries()), name@, k as int);
        }
        let entry = &self.factories[k];
        let made = entry.factory.create(precision, parameters);
        self.setup_renderer_tracking(made)
    }

    /// Checks `parameters` and `precision` with the first factory named
    /// `factory_name`, without creating a renderer.
    pub fn validate_parameters_for(
        &self,
        factory_name: &str,
        precision: DataPrecision,
        parameters: &str,
    ) -> (r: Result<(), RendererError>)
        ensures
            validation_by_name(*self, factory_name@, precision, parameters@, r),
    {
        let k = match self.position_of_name(factory_name) {
            Some((k, _)) => k,
            None => {
                proof {
                    lemma_no_index(factory_names(self.entries()), factory_name@);
                }
                return Err(RendererError::RendererNotFoundByName(owned(factory_name)));
            },
        };
        proof {
            lemma_first_index(factory_names(self.entries()), factory_name@, k as int);
        }
        let entry = &self.factories[k];
        entry.factory.validate_parameters(precision, parameters)
    }

    /// The information of the first factory named `name`.
    pub fn find_factory_by_name(&self, name: &str) -> (r: Option<RendererInfo>)
        ensures
            match factory_names(self.entries()).index_of_first(name@) {
                None => r is None,
                Some(k) => r matches Some(info) && describes(info, self.entries()[k]),
            },
    {
        match self.position_of_name(name) {
            Some((k, info)) => {
                proof {
                    lemma_first_index(factory_names(self.entries()), name@, k as int);
                }
                Some(info)
            },
            None => {
                proof {
                    lemma_no_index(factory_names(self.entries()), name@);
                }
                None
            },
        }
    }

    /// The information of every registered factory, in the order of
    /// registration.
    pub fn get_renderer_info_list(&self) -> (r: Vec<RendererInfo>)
        ensures
            describe_all(r@, self.entries()),
    {
        let mut out: Vec<RendererInfo> = Vec::new();
        let mut i: usize = 0;
        while i < self.factories.len()
            invariant
                i <= self.factories.len(),
                describe_all(out@, self.factories@.subrange(0, i as int)),
            decreases self.factories.len() - i,
        {
            let entry = &self.factories[i];
            let info = entry.factory.get_info();
            out.push(info);
            i = i + 1;
        }
        assert(self.factories@.subrange(0, self.factories.len() as int) =~= self.factories@);
        out
    }

    /// The information of the factories that list `capability`, in the order of
    /// registration. The capability is compared exactly: surrounding blanks
    /// are not removed.
    pub fn find_by_capability(&self, capability: &str) -> (r: Vec<RendererInfo>)
        ensures
            describe_all(r@, self.entries().filter(|e: FactoryEntry| offers(e, capability@))),
    {
        let ghost pred = |e: FactoryEntry| offers(e, capability@);
        let mut out: Vec<RendererInfo> = Vec::new();
        let mut i: usize = 0;
        while i < self.factories.len()
            invariant
                i <= self.factories.len(),
                pred == (|e: FactoryEntry| offers(e, capability@)),
                describe_all(out@, self.factories@.subrange(0, i as int).filter(pred)),
            decreases self.factories.len() - i,
        {
            proof {
                lemma_filter_step(self.factories@, i as int, pred);
            }
            let entry = &self.factories[i];
            let info = entry.factory.get_info();
            if lists_capability(&info, capability) {
                out.push(info);
            }
            i = i + 1;
        }
        assert(self.factories@.subrange(0, self.factories.len() as int) =~= self.factories@);
        out
    }

    /// The information of the factories that accept `precision`, in the order
    /// of registration. A factory accepts it unless its check of `precision`
    /// with empty parameters refuses it for want of support.
    pub fn find_by_precision(&self, precision: DataPrecision) -> (r: Vec<RendererInfo>)
        ensures
            describe_all(
                r@,
                self.entries().filter(|e: FactoryEntry| handles_precision(e, precision)),
            ),
    {
        let ghost pred = |e: FactoryEntry| handles_precision(e, precision);
        let mut out: Vec<RendererInfo> = Vec::new();
        let mut i: usize = 0;
        while i < self.factories.len()
            invariant
                i <= self.factories.len(),
                pred == (|e: FactoryEntry| handles_precision(e, precision)),
                describe_all(out@, self.factories@.subrange(0, i as int).filter(pred)),
            decreases self.factories.len() - i,
        {
            proof {
                lemma_filter_step(self.factories@, i as int, pred);
            }
            let entry = &self.factories[i];
            let checked = entry.factory.validate_parameters(precision, "");
            let refused = match checked {
                Err(RendererError::UnsupportedPrecision(_)) => true,
                _ => false,
            };
            if !refused {
                let info = entry.factory.get_info();
                out.push(info);
            }
            i = i + 1;
        }
        assert(self.factories@.subrange(0, self.factories.len() as int) =~= self.factories@);
        out
    }

    /// Hands over the shutdown handles of the renderers created so far, which
    /// the manager no longer keeps.
    pub fn take_shutdown_handles(&mut self) -> (r: Vec<ShutdownHandle>)
        requires
            old(self).wf(),
        ensures
            final(self).wf(),
            handle_ids(r@) == old(self).tracked_ids(),
            handle_timeouts(r@) == old(self).tracked_timeouts(),
            final(self).tracked_ids().len() == 0,
            final(self).tracked_timeouts().len() == 0,
            final(self).entries() == old(self).entries(),
            final(self).next_id() == old(self).next_id(),
    {
        let mut out: Vec<ShutdownHandle> = Vec::new();
        std::mem::swap(&mut out, &mut self.renderer_shutdowns);
        assert(self.tracked_ids() =~= Seq::<u64>::empty());
        out
    }

    /// The precisions that some registered factory accepts, each once, in the
    /// order F16, F32, F64, BFloat16.
    pub fn get_supported_precisions(&self) -> (r: Vec<DataPrecision>)
        ensures
            r@ == all_precisions().filter(
                |p: DataPrecision| precision_supported(self.entries(), p),
            ),
    {
        let ghost pred = |p: DataPrecision| precision_supported(self.entries(), p);
        let candidates = [
            DataPrecision::F16,
            DataPrecision::F32,
            DataPrecision::F64,
            DataPrecision::BFloat16,
        ];
        assert(candidates@ == all_precisions());
        let mut out: Vec<DataPrecision> = Vec::new();
        let mut i: usize = 0;
        while i < 4
            invariant
                i <= 4,
                candidates@ == all_precisions(),
                pred == (|p: DataPrecision| precision_supported(self.entries(), p)),
                out@ == all_precisions().subrange(0, i as int).filter(pred),
            decreases 4 - i,
        {
            proof {
                lemma_filter_step(all_precisions(), i as int, pred);
            }
            let p = candidates[i];
            let found = self.find_by_precision(p);
            proof {
                let hp = |e: FactoryEntry| handles_precision(e, p);
                lemma_filter_empty(self.entries(), hp);
                if precision_supported(self.entries(), p) {
                    let k = choose|k: int|
                        0 <= k < self.entries().len() && handles_precision(
                            #[trigger] self.entries()[k],
                            p,
                        );
                    assert(hp(self.entries()[k]));
                }
            }
            if found.len() > 0 {
                out.push(p);
            }
            i = i + 1;
        }
        assert(all_precisions().subrange(0, 4) =~= all_precisions());
        out
    }

    /// Every capability name that some registered factory lists, each once,
    /// in ascending order of characters.
    pub fn get_all_capabilities(&self) -> (r: Vec<String>)
        ensures
            strictly_sorted(string_views(r@)),
            forall|c: Seq<char>| #[trigger]
                string_views(r@).contains(c) <==> offered_by_some(self.entries(), c),
    {
        let mut out: Vec<String> = Vec::new();
        let mut i: usize = 0;
        while i < self.factories.len()
            invariant
                i <= self.factories.len(),
                strictly_sorted(string_views(out@)),
                forall|c: Seq<char>| #[trigger]
                    string_views(out@).contains(c) <==> offered_by_some(
                        self.factories@.subrange(0, i as int),
                        c,
                    ),
            decreases self.factories.len() - i,
        {
            let entry = &self.factories[i];
            let info = entry.factory.get_info();
            let caps = info.get_capabilities();
            let ghost list = capability_list(info.capabilities@);
            let ghost done = self.factories@.subrange(0, i as int);
            let mut j: usize = 0;
            while j < caps.len()
                invariant
                    j <= caps.len(),
                    caps.len() == list.len(),
                    forall|k: int| 0 <= k < caps.len() ==> (#[trigger] caps[k])@ == list[k],
                    strictly_sorted(string_views(out@)),
                    forall|c: Seq<char>| #[trigger]
                        string_views(out@).contains(c) <==> (offered_by_some(done, c)
                            || list.subrange(0, j as int).contains(c)),
                decreases caps.len() - j,
            {
                let ghost before = string_views(out@);
                insert_sorted_unique(&mut out, owned(caps[j]));
                assert forall|c: Seq<char>| #[trigger]
                    string_views(out@).contains(c) <==> (offered_by_some(done, c)
                        || list.subrange(0, j + 1).contains(c)) by {
                    if list.subrange(0, j + 1).contains(c) && c != list[j as int] {
                        let k = choose|k: int| 0 <= k < j + 1 && #[trigger] list.subrange(0, j + 1)[k] == c;
                        assert(list.subrange(0, j as int)[k] == c);
                    }
                    if list.subrange(0, j as int).contains(c) {
                        let k = choose|k: int| 0 <= k < j && #[trigger] list.subrange(0, j as int)[k] == c;
                        assert(list.subrange(0, j + 1)[k] == c);
                    }
                    if c == list[j as int] {
                        assert(list.subrange(0, j + 1)[j as int] == c);
                    }
                }
                j = j + 1;
            }
            assert(list.subrange(0, caps.len() as int) =~= list);
            assert forall|c: Seq<char>|
                offered_by_some(self.factories@.subrange(0, i + 1), c) <==> (offered_by_some(
                    done,
                    c,
                ) || list.contains(c)) by {
                let next = self.factories@.subrange(0, i + 1);
                if offered_by_some(next, c) {
                    let k = choose|k: int| 0 <= k < next.len() && offers(#[trigger] next[k], c);
                    if k < i {
                        assert(done[k] == next[k]);
                    } else {
                        assert(next[k] == self.factories@[i as int]);
                    }
                }
                if offered_by_some(done, c) {
                    let k = choose|k: int| 0 <= k < done.len() && offers(#[trigger] done[k], c);
                    assert(next[k] == done[k]);
                }
                if list.contains(c) {
                    assert(next[i as int] == self.factories@[i as int]);
                    assert(offers(next[i as int], c));
                }
            }
            i = i + 1;
        }
        assert(self.factories@.subrange(0, self.factories.len() as int) =~= self.factories@);
        out
    }
}

/// An index at which `x` stands, with `x` nowhere before it, is the first.
proof fn lemma_first_index<A>(s: Seq<A>, x: A, k: int)
    requires
        0 <= k < s.len(),
        s[k] == x,
        forall|j: int| 0 <= j < k ==> s[j] != x,
    ensures
        s.index_of_first(x) == Some(k),
{
    s.index_of_first_ensures(x);
}

/// An element that does not occur has no first index.
proof fn lemma_no_index<A>(s: Seq<A>, x: A)
    requires
        !s.contains(x),
    ensures
        s.index_of_first(x) is None,
{
    s.index_of_first_ensures(x);
}

/// In a sequence without duplicates, the first index of an element is the
/// index at which it stands.
proof fn lemma_distinct_index<A>(s: Seq<A>, x: A, k: int)
    requires
        s.no_duplicates(),
        0 <= k < s.len(),
        s[k] == x,
    ensures
        s.index_of_first(x) == Some(k),
{
    s.index_of_first_ensures(x);
}

impl Default for RendererManager {
    fn default() -> (r: Self)
        ensures
            r.wf(),
            r.entries().len() == 0,
            r.tracked_ids().len() == 0,
            r.tracked_timeouts().len() == 0,
    {
        RendererManager::new()
    }
}

} // verus!
