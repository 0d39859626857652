//! The Apple Neural Engine driver: the hardware-facing side of the Apple device.
//! It keeps one cache entry per model path, so loading a path twice loads it once.
use vstd::prelude::*;
use crate::types::NpuError;

verus! {

/// Driver-side handle of a loaded Core ML model.
#[derive(Debug, Clone)]
pub struct CoreMLModelHandle {
    pub path: String,
    pub input_names: Vec<String>,
    pub output_names: Vec<String>,
    pub is_neural_engine_optimized: bool,
}

/// The handle the driver makes for `path`: one input "input", one output "output".
pub open spec fn is_handle_for(h: CoreMLModelHandle, path: Seq<char>, optimized: bool) -> bool {
    &&& h.path@ == path
    &&& h.input_names@.len() == 1
    &&& h.input_names@[0]@ == "input"@
    &&& h.output_names@.len() == 1
    &&& h.output_names@[0]@ == "output"@
    &&& h.is_neural_engine_optimized == optimized
}

pub open spec fn unique_paths(s: Seq<Seq<char>>) -> bool {
    forall|i: int, j: int| 0 <= i < s.len() && 0 <= j < s.len() && i != j ==> s[i] != s[j]
}

/// The cache after a successful load of `path`: unchanged if it already holds the
/// path, else extended by it.
pub open spec fn cache_after_load(paths: Seq<Seq<char>>, path: Seq<char>) -> Seq<Seq<char>> {
    if paths.contains(path) {
        paths
    } else {
        paths.push(path)
    }
}

/// Loading the same path twice leaves the cache as one load does, and the cache then
/// holds that path exactly once.
pub proof fn lemma_model_load_idempotent(paths: Seq<Seq<char>>, path: Seq<char>)
    requires
        unique_paths(paths),
    ensures
        cache_after_load(cache_after_load(paths, path), path) == cache_after_load(paths, path),
        cache_after_load(paths, path).contains(path),
        unique_paths(cache_after_load(paths, path)),
        cache_after_load(paths, path).len() <= paths.len() + 1,
        forall|i: int, j: int|
            0 <= i < cache_after_load(paths, path).len() && 0 <= j < cache_after_load(paths, path).len()
                && cache_after_load(paths, path)[i] == path && cache_after_load(paths, path)[j] == path
                ==> i == j,
{
    let once = cache_after_load(paths, path);
    if !paths.contains(path) {
        assert(once[paths.len() as int] == path);
        assert forall|i: int, j: int| 0 <= i < once.len() && 0 <= j < once.len() && i != j implies once[i] != once[j] by {
            if i < paths.len() && j < paths.len() {
            } else if i < paths.len() {
                assert(paths[i] == once[i]);
            } else {
                assert(paths[j] == once[j]);
            }
        }
    }
    assert(once.contains(path));
}

#[derive(Debug)]
pub struct AppleNeuralEngineDriver {
    pub loaded_models: Vec<CoreMLModelHandle>,
    pub is_neural_engine_available: bool,
}

impl AppleNeuralEngineDriver {
    pub open spec fn cached_paths(&self) -> Seq<Seq<char>> {
        self.loaded_models@.map_values(|h: CoreMLModelHandle| h.path@)
    }

    pub open spec fn wf(&self) -> bool {
        &&& unique_paths(self.cached_paths())
        &&& forall|i: int| 0 <= i < self.loaded_models@.len() ==> {
            &&& is_handle_for(#[trigger] self.loaded_models@[i], self.loaded_models@[i].path@, self.is_neural_engine_available)
            &&& self.loaded_models@[i].path@.len() > 0
        }
    }

    /// A driver with an empty cache. Whether the Neural Engine is present is probed by
    /// the caller, since it depends on the host.
    pub fn new(neural_engine_available: bool) -> (r: Result<Self, NpuError>)
        ensures
            r matches Ok(d) && d.wf() && d.loaded_models@.len() == 0
                && d.is_neural_engine_available == neural_engine_available,
    {
        Ok(AppleNeuralEngineDriver { loaded_models: Vec::new(), is_neural_engine_available: neural_engine_available })
    }

    fn make_handle(path: String, optimized: bool) -> (r: CoreMLModelHandle)
        ensures
            is_handle_for(r, path@, optimized),
    {
        let input = String::from_str("input");
        let output = String::from_str("output");
        proof {
            reveal_strlit("input");
            reveal_strlit("output");
        }
        CoreMLModelHandle {
            path,
            input_names: vec![input],
            output_names: vec![output],
            is_neural_engine_optimized: optimized,
        }
    }

    /// Loads a model, or returns the cached handle when the path was loaded before.
    /// The lookup and the insertion happen under one exclusive borrow, so a path is
    /// never loaded twice.
    pub fn load_model(&mut self, path: &str) -> (r: Result<CoreMLModelHandle, NpuError>)
        requires
            old(self).wf(),
        ensures
            final(self).wf(),
            final(self).is_neural_engine_available == old(self).is_neural_engine_available,
            r is Err <==> path@.len() == 0,
            r is Err ==> r matches Err(NpuError::ModelLoadError(_)),
            r is Err ==> final(self).loaded_models@ == old(self).loaded_models@,
            r matches Ok(h) ==> is_handle_for(h, path@, old(self).is_neural_engine_available),
            r is Ok ==> final(self).cached_paths() == cache_after_load(old(self).cached_paths(), path@),
            r is Ok ==> final(self).cached_paths().contains(path@),
            r is Ok ==> final(self).loaded_models@.len() == old(self).loaded_models@.len()
                + if old(self).cached_paths().contains(path@) { 0int } else { 1int },
            old(self).cached_paths().contains(path@) ==> final(self).loaded_models@ == old(self).loaded_models@,
    {
        let key = String::from_str(path);
        let mut i: usize = 0;
        while i < self.loaded_models.len()
            invariant
                0 <= i <= self.loaded_models@.len(),
                key@ == path@,
                self.wf(),
                self.loaded_models@ == old(self).loaded_models@,
                self.is_neural_engine_available == old(self).is_neural_engine_available,
                forall|j: int| 0 <= j < i ==> self.loaded_models@[j].path@ != path@,
            decreases self.loaded_models@.len() - i,
        {
            if self.loaded_models[i].path == key {
                assert(self.cached_paths()[i as int] == path@);
                let optimized = self.loaded_models[i].is_neural_engine_optimized;
                assert(is_handle_for(self.loaded_models@[i as int], path@, self.is_neural_engine_available));
                return Ok(Self::make_handle(key, optimized));
            }
            i = i + 1;
        }
        assert(!self.cached_paths().contains(path@)) by {
            if self.cached_paths().contains(path@) {
                let k = choose|k: int| 0 <= k < self.cached_paths().len() && self.cached_paths()[k] == path@;
                assert(self.loaded_models@[k].path@ == path@);
            }
        }
        if path.unicode_len() == 0 {
            return Err(NpuError::ModelLoadError(String::from_str("empty model path provided")));
        }
        let handle = Self::make_handle(String::from_str(path), self.is_neural_engine_available);
        let copy = Self::make_handle(key, self.is_neural_engine_available);
        let ghost before = self.loaded_models@;
        self.loaded_models.push(handle);
        proof {
            assert(self.cached_paths() =~= old(self).cached_paths().push(path@));
            lemma_model_load_idempotent(old(self).cached_paths(), path@);
            assert forall|j: int| 0 <= j < self.loaded_models@.len() implies {
                &&& is_handle_for(#[trigger] self.loaded_models@[j], self.loaded_models@[j].path@, self.is_neural_engine_available)
                &&& self.loaded_models@[j].path@.len() > 0
            } by {
                if j < before.len() {
                    assert(self.loaded_models@[j] == before[j]);
                }
            }
        }
        Ok(copy)
    }

    /// Number of distinct models in the cache.
    pub fn loaded_model_count(&self) -> (r: usize)
        ensures
            r == self.loaded_models@.len(),
    {
        self.loaded_models.len()
    }

    pub fn is_neural_engine_available(&self) -> (r: bool)
        ensures
            r == self.is_neural_engine_available,
    {
        self.is_neural_engine_available
    }

    pub fn capabilities(&self) -> (r: &'static str)
        ensures
            r@ == "Apple Neural Engine with Core ML - Supports float32, float16, int8 inference with up to 15.8 TOPS"@,
    {
        "Apple Neural Engine with Core ML - Supports float32, float16, int8 inference with up to 15.8 TOPS"
    }
}

} // verus!
