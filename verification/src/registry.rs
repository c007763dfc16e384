//! Model registry and context budgeting.

use vstd::prelude::*;
use crate::text::{chars_equal, chars_of, is_blank, str_is_blank};

verus! {

broadcast use vstd::string::group_string_axioms;

#[derive(Debug, Clone, PartialEq, Eq)]
pub enum RegistryError {
    EmptyField { field: &'static str },
    ZeroValue { field: &'static str },
    UnorderedContextLadder,
    DuplicateModel(String),
    UnknownModel(String),
    InvalidEndpoint,
}

/// Identifier of a registered model: any text that is not blank.
#[derive(Debug, PartialEq, Eq, Hash)]
pub struct RegistryModelId(String);

impl Clone for RegistryModelId {
    fn clone(&self) -> (r: Self)
        ensures
            r@ == self@,
    {
        RegistryModelId(self.0.clone())
    }
}

impl View for RegistryModelId {
    type V = Seq<char>;

    closed spec fn view(&self) -> Seq<char> {
        self.0@
    }
}

impl RegistryModelId {
    pub fn new(value: &str) -> (r: Result<Self, RegistryError>)
        ensures
            is_blank(value@) ==> r == Err::<Self, RegistryError>(
                RegistryError::EmptyField { field: "model_id" },
            ),
            !is_blank(value@) ==> (r matches Ok(id) && id@ == value@),
    {
        if str_is_blank(value) {
            return Err(RegistryError::EmptyField { field: "model_id" });
        }
        Ok(Self(value.to_owned()))
    }

    pub fn as_str(&self) -> (r: &str)
        ensures
            r@ == self@,
    {
        self.0.as_str()
    }
}

#[derive(Debug, Clone, Copy, PartialEq, Eq, Structural)]
pub enum ModelBackend {
    LlamaServer,
    MlxLm,
}

#[derive(Debug, Clone, Copy, PartialEq, Eq, Structural)]
pub enum ModelFormat {
    Gguf,
    Mlx,
    Safetensors,
}

#[derive(Debug, Clone, Copy, PartialEq, Eq, Structural)]
pub enum Quantization {
    F16,
    Q8,
    Q6,
    Q5,
    Q4,
}

impl Quantization {
    /// Bits per weight.
    pub fn bits(self) -> (r: u8)
        ensures
            r == match self {
                Quantization::F16 => 16u8,
                Quantization::Q8 => 8u8,
                Quantization::Q6 => 6u8,
                Quantization::Q5 => 5u8,
                Quantization::Q4 => 4u8,
            },
    {
        match self {
            Self::F16 => 16,
            Self::Q8 => 8,
            Self::Q6 => 6,
            Self::Q5 => 5,
            Self::Q4 => 4,
        }
    }
}

/// Context sizes a model may be run at: not empty, positive, strictly increasing.
pub open spec fn valid_ladder(levels: Seq<u32>) -> bool {
    &&& levels.len() > 0
    &&& forall|k: int| 0 <= k < levels.len() ==> levels[k] > 0
    &&& forall|i: int, j: int| 0 <= i < j < levels.len() ==> levels[i] < levels[j]
}

/// The context sizes a model supports, smallest first.
#[derive(Debug, PartialEq, Eq)]
pub struct ContextLadder {
    levels: Vec<u32>,
}

impl View for ContextLadder {
    type V = Seq<u32>;

    closed spec fn view(&self) -> Seq<u32> {
        self.levels@
    }
}

impl Clone for ContextLadder {
    fn clone(&self) -> (r: Self)
        ensures
            r@ == self@,
    {
        proof {
            use_type_invariant(self);
        }
        Self { levels: self.levels.clone() }
    }
}

/// The largest level that does not exceed `requested`, or the smallest
/// level when every level exceeds it.
pub open spec fn is_floor(levels: Seq<u32>, requested: u32, r: u32) -> bool {
    if levels[0] > requested {
        r == levels[0]
    } else {
        &&& levels.contains(r)
        &&& r <= requested
        &&& forall|k: int| 0 <= k < levels.len() && levels[k] <= requested ==> levels[k] <= r
    }
}

impl ContextLadder {
    #[verifier::type_invariant]
    closed spec fn well_formed(self) -> bool {
        valid_ladder(self.levels@)
    }

    /// Errors in this order: no level, a zero level, levels out of order.
    pub fn new(levels: Vec<u32>) -> (r: Result<Self, RegistryError>)
        ensures
            levels@.len() == 0 ==> r == Err::<Self, RegistryError>(
                RegistryError::EmptyField { field: "context_ladder" },
            ),
            levels@.len() > 0 && levels@.contains(0u32) ==> r == Err::<Self, RegistryError>(
                RegistryError::ZeroValue { field: "context_tokens" },
            ),
            levels@.len() > 0 && !levels@.contains(0u32) && !valid_ladder(levels@) ==> r == Err::<
                Self,
                RegistryError,
            >(RegistryError::UnorderedContextLadder),
            valid_ladder(levels@) ==> (r matches Ok(l) && l@ == levels@),
    {
        if levels.len() == 0 {
            return Err(RegistryError::EmptyField { field: "context_ladder" });
        }
        for k in 0..levels.len()
            invariant
                forall|m: int| 0 <= m < k ==> levels@[m] != 0,
        {
            if levels[k] == 0 {
                return Err(RegistryError::ZeroValue { field: "context_tokens" });
            }
        }
        assert(!levels@.contains(0u32));
        for k in 1..levels.len()
            invariant
                levels@.len() > 0,
                !levels@.contains(0u32),
                forall|i: int, j: int| 0 <= i < j < k ==> levels@[i] < levels@[j],
        {
            if levels[k - 1] >= levels[k] {
                return Err(RegistryError::UnorderedContextLadder);
            }
        }
        Ok(Self { levels })
    }

    pub fn levels(&self) -> (r: &[u32])
        ensures
            r@ == self@,
            valid_ladder(r@),
    {
        proof {
            use_type_invariant(self);
        }
        self.levels.as_slice()
    }

    pub fn smallest(&self) -> (r: u32)
        ensures
            r == self@[0],
            forall|k: int| 0 <= k < self@.len() ==> r <= self@[k],
    {
        proof {
            use_type_invariant(self);
        }
        self.levels[0]
    }

    pub fn largest(&self) -> (r: u32)
        ensures
            r == self@.last(),
            forall|k: int| 0 <= k < self@.len() ==> self@[k] <= r,
    {
        proof {
            use_type_invariant(self);
        }
        self.levels[self.levels.len() - 1]
    }

    pub fn floor(&self, requested: u32) -> (r: u32)
        ensures
            valid_ladder(self@),
            is_floor(self@, requested, r),
    {
        proof {
            use_type_invariant(self);
        }
        let mut best = self.levels[0];
        let mut i: usize = 0;
        while i < self.levels.len() && self.levels[i] <= requested
            invariant
                valid_ladder(self.levels@),
                i <= self.levels.len(),
                i > 0 ==> best == self.levels@[i - 1],
                i == 0 ==> best == self.levels@[0],
                forall|k: int| 0 <= k < i ==> self.levels@[k] <= requested,
            decreases self.levels.len() - i,
        {
            best = self.levels[i];
            i = i + 1;
        }
        assert(i > 0 ==> self.levels@.contains(best)) by {
            if i > 0 {
                assert(self.levels@[i - 1] == best);
            }
        }
        best
    }
}

/// `a * b` in `u64`, clamped at the largest value.
pub open spec fn sat_mul(a: u64, b: u64) -> u64 {
    if a * b > u64::MAX {
        u64::MAX
    } else {
        (a * b) as u64
    }
}

/// `a + b` in `u64`, clamped at the largest value.
pub open spec fn sat_add(a: u64, b: u64) -> u64 {
    if a + b > u64::MAX {
        u64::MAX
    } else {
        (a + b) as u64
    }
}

/// A model as the registry knows it.
#[derive(Debug, PartialEq, Eq)]
pub struct ModelEntry {
    pub id: RegistryModelId,
    pub backend: ModelBackend,
    pub format: ModelFormat,
    pub quantization: Quantization,
    pub weights_bytes: u64,
    pub bytes_per_kv_token: u64,
    pub contexts: ContextLadder,
}

impl ModelEntry {
    /// Refuses zero weight bytes first, then zero KV bytes per token.
    pub fn new(
        id: RegistryModelId,
        backend: ModelBackend,
        format: ModelFormat,
        quantization: Quantization,
        weights_bytes: u64,
        bytes_per_kv_token: u64,
        contexts: ContextLadder,
    ) -> (r: Result<Self, RegistryError>)
        ensures
            weights_bytes == 0 ==> r == Err::<Self, RegistryError>(
                RegistryError::ZeroValue { field: "weights_bytes" },
            ),
            weights_bytes != 0 && bytes_per_kv_token == 0 ==> r == Err::<Self, RegistryError>(
                RegistryError::ZeroValue { field: "bytes_per_kv_token" },
            ),
            weights_bytes != 0 && bytes_per_kv_token != 0 ==> r == Ok::<Self, RegistryError>(
                ModelEntry {
                    id,
                    backend,
                    format,
                    quantization,
                    weights_bytes,
                    bytes_per_kv_token,
                    contexts,
                },
            ),
    {
        if weights_bytes == 0 {
            return Err(RegistryError::ZeroValue { field: "weights_bytes" });
        }
        if bytes_per_kv_token == 0 {
            return Err(RegistryError::ZeroValue { field: "bytes_per_kv_token" });
        }
        Ok(Self { id, backend, format, quantization, weights_bytes, bytes_per_kv_token, contexts })
    }

    /// KV-cache bytes for `tokens` tokens, saturating.
    pub fn kv_bytes_for(&self, tokens: u32) -> (r: u64)
        ensures
            r == sat_mul(self.bytes_per_kv_token, tokens as u64),
    {
        match self.bytes_per_kv_token.checked_mul(tokens as u64) {
            Some(v) => v,
            None => u64::MAX,
        }
    }

    /// Weights plus KV cache for `tokens` tokens, saturating.
    pub fn total_bytes_for(&self, tokens: u32) -> (r: u64)
        ensures
            r == sat_add(self.weights_bytes, sat_mul(self.bytes_per_kv_token, tokens as u64)),
    {
        self.weights_bytes.saturating_add(self.kv_bytes_for(tokens))
    }
}

/// Models by identifier; no identifier occurs twice.
#[derive(Debug)]
pub struct ModelRegistry {
    entries: Vec<ModelEntry>,
}

/// No two entries share an identifier.
pub open spec fn distinct_ids(es: Seq<ModelEntry>) -> bool {
    forall|i: int, j: int| 0 <= i < j < es.len() ==> es[i].id@ != es[j].id@
}

pub open spec fn registered(es: Seq<ModelEntry>, id: Seq<char>) -> bool {
    exists|i: int| 0 <= i < es.len() && es[i].id@ == id
}

impl View for ModelRegistry {
    type V = Seq<ModelEntry>;

    closed spec fn view(&self) -> Seq<ModelEntry> {
        self.entries@
    }
}

impl ModelRegistry {
    /// Identifiers are unique.
    #[verifier::type_invariant]
    closed spec fn unique_ids(self) -> bool {
        distinct_ids(self.entries@)
    }

    pub fn new() -> (r: Self)
        ensures
            r@ == Seq::<ModelEntry>::empty(),
    {
        Self { entries: Vec::new() }
    }

    fn position(&self, id: &Vec<char>) -> (r: Option<usize>)
        ensures
            r matches Some(i) ==> i < self@.len() && self@[i as int].id@ == id@,
            r is None ==> !registered(self@, id@),
    {
        for i in 0..self.entries.len()
            invariant
                forall|k: int| 0 <= k < i ==> self.entries@[k].id@ != id@,
        {
            let key = chars_of(self.entries[i].id.as_str());
            if chars_equal(&key, id) {
                return Some(i);
            }
        }
        None
    }

    /// Registers a model whose identifier is new.
    pub fn insert(&mut self, entry: ModelEntry) -> (r: Result<(), RegistryError>)
        ensures
            registered(old(self)@, entry.id@) ==> (r matches Err(RegistryError::DuplicateModel(k))
                && k@ == entry.id@ && final(self)@ == old(self)@),
            !registered(old(self)@, entry.id@) ==> (r is Ok && final(self)@ == old(self)@.push(
                entry,
            )),
    {
        proof {
            use_type_invariant(&*self);
        }
        let key = entry.id.as_str().to_owned();
        let id = chars_of(key.as_str());
        if self.position(&id).is_some() {
            return Err(RegistryError::DuplicateModel(key));
        }
        let ghost before = self.entries@;
        let mut entries: Vec<ModelEntry> = Vec::new();
        std::mem::swap(&mut entries, &mut self.entries);
        entries.push(entry);
        proof {
            lemma_insert_then_lookup(before, entry, entries@);
        }
        self.entries = entries;
        Ok(())
    }

    /// The model registered under `id`.
    pub fn get(&self, id: &str) -> (r: Result<&ModelEntry, RegistryError>)
        ensures
            registered(self@, id@) ==> (r matches Ok(e) && e.id@ == id@ && self@.contains(*e)),
            !registered(self@, id@) ==> (r matches Err(RegistryError::UnknownModel(k)) && k@
                == id@),
    {
        let key = chars_of(id);
        match self.position(&key) {
            Some(i) => Ok(&self.entries[i]),
            None => Err(RegistryError::UnknownModel(id.to_owned())),
        }
    }

    pub fn len(&self) -> (r: usize)
        ensures
            r == self@.len(),
    {
        self.entries.len()
    }
}

/// Registering a model and then looking its identifier up gives that model
/// back, and leaves every earlier registration in place.
pub proof fn lemma_insert_then_lookup(before: Seq<ModelEntry>, entry: ModelEntry, after: Seq<ModelEntry>)
    requires
        distinct_ids(before),
        !registered(before, entry.id@),
        after == before.push(entry),
    ensures
        distinct_ids(after),
        registered(after, entry.id@),
        forall|i: int| 0 <= i < after.len() && after[i].id@ == entry.id@ ==> after[i] == entry,
        forall|id: Seq<char>| registered(before, id) ==> registered(after, id),
{
    assert(after[before.len() as int] == entry);
    assert forall|id: Seq<char>| registered(before, id) implies registered(after, id) by {
        let i = choose|i: int| 0 <= i < before.len() && before[i].id@ == id;
        assert(after[i] == before[i]);
    }
}

pub struct RegistryMarker;

impl Clone for ModelEntry {
    /// The same model: equal identifier and fields, the same context ladder.
    fn clone(&self) -> (r: Self)
        ensures
            r.id@ == self.id@,
            r.backend == self.backend,
            r.format == self.format,
            r.quantization == self.quantization,
            r.weights_bytes == self.weights_bytes,
            r.bytes_per_kv_token == self.bytes_per_kv_token,
            r.contexts@ == self.contexts@,
    {
        ModelEntry {
            id: self.id.clone(),
            backend: self.backend,
            format: self.format,
            quantization: self.quantization,
            weights_bytes: self.weights_bytes,
            bytes_per_kv_token: self.bytes_per_kv_token,
            contexts: self.contexts.clone(),
        }
    }
}

impl Clone for ModelRegistry {
    /// The same models, in the same order.
    fn clone(&self) -> (r: Self)
        ensures
            r@.len() == self@.len(),
            forall|i: int| 0 <= i < r@.len() ==> (#[trigger] r@[i]).id@ == self@[i].id@,
    {
        proof {
            use_type_invariant(self);
        }
        let mut entries: Vec<ModelEntry> = Vec::new();
        for i in 0..self.entries.len()
            invariant
                distinct_ids(self.entries@),
                entries@.len() == i,
                forall|k: int| 0 <= k < i ==> (#[trigger] entries@[k]).id@ == self.entries@[k].id@,
        {
            entries.push(self.entries[i].clone());
        }
        assert(distinct_ids(entries@)) by {
            assert forall|a: int, b: int| 0 <= a < b < entries@.len() implies entries@[a].id@
                != entries@[b].id@ by {
                assert(self.entries@[a].id@ != self.entries@[b].id@);
            }
        }
        ModelRegistry { entries }
    }
}

impl Default for ModelRegistry {
    fn default() -> (r: Self)
        ensures
            r@ == Seq::<ModelEntry>::empty(),
    {
        Self::new()
    }
}

} // verus!
