//! Renderer kinds and the runtime settings cache (CPU thread count, GPU
//! use) that sits in front of the browser's local storage.

use vstd::prelude::*;

verus! {

/// Which renderer implementation to use.
#[derive(Clone, Copy, Debug, PartialEq, Eq, Structural)]
pub enum RendererType {
    /// Simple per-pixel arbitrary-precision computation.
    Simple,
    /// Perturbation theory with delta iterations.
    Perturbation,
}

impl Default for RendererType {
    fn default() -> (r: Self)
        ensures
            r == RendererType::Simple,
    {
        RendererType::Simple
    }
}

/// Cached runtime settings. `None` means "not loaded from storage yet"
/// (or nothing stored), in which case the configured default applies.
#[derive(Clone, Copy, Debug, PartialEq, Eq, Structural)]
pub struct RuntimeSettings {
    pub cpu_threads: Option<i32>,
    pub gpu_enabled: Option<bool>,
}

impl RuntimeSettings {
    /// An empty cache.
    pub fn new() -> (r: Self)
        ensures
            r == (RuntimeSettings { cpu_threads: None, gpu_enabled: None }),
    {
        RuntimeSettings { cpu_threads: None, gpu_enabled: None }
    }

    /// Whether the CPU thread count has yet to be read from storage.
    pub fn cpu_threads_needs_load(&self) -> (r: bool)
        ensures
            r == (self.cpu_threads is None),
    {
        self.cpu_threads.is_none()
    }

    /// Whether the GPU setting has yet to be read from storage.
    pub fn gpu_enabled_needs_load(&self) -> (r: bool)
        ensures
            r == (self.gpu_enabled is None),
    {
        self.gpu_enabled.is_none()
    }
}

/// The cache after a lookup that found `stored` in storage.
pub open spec fn after_load<A>(cached: Option<A>, stored: Option<A>) -> Option<A> {
    if cached is None && stored is Some { stored } else { cached }
}

/// The CPU thread count in effect: the cached value, else the configured
/// worker count, else 0.
pub open spec fn cpu_threads_in_effect(cached: Option<i32>, config_worker_count: Option<i32>) -> i32 {
    match cached {
        Some(v) => v,
        None => match config_worker_count { Some(c) => c, None => 0 },
    }
}

/// The GPU setting in effect: the cached value, else the configured
/// default, else enabled.
pub open spec fn gpu_enabled_in_effect(cached: Option<bool>, config_gpu_enabled: Option<bool>) -> bool {
    match cached {
        Some(v) => v,
        None => match config_gpu_enabled { Some(c) => c, None => true },
    }
}

/// The current CPU thread setting: the cached value (filled from `stored`,
/// the value read from storage, on first access), else the configured
/// worker count, else 0.
pub fn get_cpu_threads(settings: &mut RuntimeSettings, stored: Option<i32>, config_worker_count: Option<i32>) -> (r: i32)
    ensures
        final(settings).cpu_threads == after_load(old(settings).cpu_threads, stored),
        final(settings).gpu_enabled == old(settings).gpu_enabled,
        r == cpu_threads_in_effect(final(settings).cpu_threads, config_worker_count),
{
    if settings.cpu_threads.is_none() {
        if let Some(v) = stored {
            settings.cpu_threads = Some(v);
        }
    }
    match settings.cpu_threads {
        Some(v) => v,
        None => match config_worker_count {
            Some(c) => c,
            None => 0,
        },
    }
}

/// Set the CPU thread count (the caller persists it to storage).
pub fn set_cpu_threads(settings: &mut RuntimeSettings, value: i32)
    ensures
        *final(settings) == (RuntimeSettings { cpu_threads: Some(value), ..*old(settings) }),
{
    settings.cpu_threads = Some(value);
}

/// The explicitly chosen CPU thread count, if any (filled from `stored`
/// on first access).
pub fn get_cpu_threads_override(settings: &mut RuntimeSettings, stored: Option<i32>) -> (r: Option<i32>)
    ensures
        final(settings).cpu_threads == after_load(old(settings).cpu_threads, stored),
        final(settings).gpu_enabled == old(settings).gpu_enabled,
        r == final(settings).cpu_threads,
{
    if settings.cpu_threads.is_none() {
        if let Some(v) = stored {
            settings.cpu_threads = Some(v);
            return Some(v);
        }
    }
    settings.cpu_threads
}

/// The current GPU setting: the cached value (filled from `stored` on
/// first access), else the configured default, else enabled.
pub fn get_gpu_enabled(settings: &mut RuntimeSettings, stored: Option<bool>, config_gpu_enabled: Option<bool>) -> (r: bool)
    ensures
        final(settings).gpu_enabled == after_load(old(settings).gpu_enabled, stored),
        final(settings).cpu_threads == old(settings).cpu_threads,
        r == gpu_enabled_in_effect(final(settings).gpu_enabled, config_gpu_enabled),
{
    if settings.gpu_enabled.is_none() {
        if let Some(v) = stored {
            settings.gpu_enabled = Some(v);
        }
    }
    match settings.gpu_enabled {
        Some(v) => v,
        None => match config_gpu_enabled {
            Some(c) => c,
            None => true,
        },
    }
}

/// Set the GPU setting (the caller persists it to storage).
pub fn set_gpu_enabled(settings: &mut RuntimeSettings, value: bool)
    ensures
        *final(settings) == (RuntimeSettings { gpu_enabled: Some(value), ..*old(settings) }),
{
    settings.gpu_enabled = Some(value);
}

/// The explicitly chosen GPU setting, if any (filled from `stored` on
/// first access).
pub fn get_gpu_enabled_override(settings: &mut RuntimeSettings, stored: Option<bool>) -> (r: Option<bool>)
    ensures
        final(settings).gpu_enabled == after_load(old(settings).gpu_enabled, stored),
        final(settings).cpu_threads == old(settings).cpu_threads,
        r == final(settings).gpu_enabled,
{
    if settings.gpu_enabled.is_none() {
        if let Some(v) = stored {
            settings.gpu_enabled = Some(v);
            return Some(v);
        }
    }
    settings.gpu_enabled
}

/// What a read gives back of a write: after `set_cpu_threads(v)` (resp.
/// `set_gpu_enabled(v)`), every later read returns `v`, whatever storage
/// and the configuration hold, and the override reads give `Some(v)`.
pub proof fn lemma_set_then_get(
    settings: RuntimeSettings,
    threads: i32,
    stored: Option<i32>,
    config_worker_count: Option<i32>,
    gpu: bool,
    stored_gpu: Option<bool>,
    config_gpu_enabled: Option<bool>,
)
    ensures
        ({
            let after = RuntimeSettings { cpu_threads: Some(threads), ..settings };
            &&& after_load(after.cpu_threads, stored) == Some(threads)
            &&& cpu_threads_in_effect(after_load(after.cpu_threads, stored), config_worker_count) == threads
        }),
        ({
            let after = RuntimeSettings { gpu_enabled: Some(gpu), ..settings };
            &&& after_load(after.gpu_enabled, stored_gpu) == Some(gpu)
            &&& gpu_enabled_in_effect(after_load(after.gpu_enabled, stored_gpu), config_gpu_enabled) == gpu
        }),
{
}

/// A stored value is read at most once: after the first lookup the cache
/// answers, and later stored values are not consulted.
pub proof fn lemma_load_once<A>(cached: Option<A>, first: Option<A>, later: Option<A>)
    ensures
        after_load(after_load(cached, first), later) == after_load(cached, first) || (after_load(cached, first) is None),
        after_load(cached, first) is None ==> cached is None && first is None,
{
}

} // verus!
