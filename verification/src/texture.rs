//! The texture cache: one device texture per distinct image source.

use crate::command::Command;
use crate::command::TextureHandle;
use crate::command::UploadReport;
use crate::error::RenderError;
use crate::names::is_first_occurrence;
use crate::names::names_of;
use crate::shader::sampler_at;
use crate::shader::sampler_for_unit;
use vstd::prelude::*;
use vstd::string::StringExecFns;

verus! {

/// The sources a cache knows after `source` has been acquired from a cache
/// that knew `sources`: a new source goes to the end, a known one changes
/// nothing.
pub open spec fn acquired(sources: Seq<Seq<char>>, source: Seq<char>) -> Seq<Seq<char>> {
    if sources.contains(source) {
        sources
    } else {
        sources.push(source)
    }
}

/// What [`TextureCache::acquire`] returns.
#[derive(Clone, Copy, Debug, PartialEq, Eq, Structural)]
pub struct Acquired {
    /// The texture for the source.
    pub handle: TextureHandle,
    /// Whether the source was new to the cache, so that its pixel data has
    /// to be uploaded now.
    pub fresh: bool,
}

/// Deduplicates textures by the identity of their source. A texture, once
/// acquired, stays until the whole cache is torn down.
#[derive(Clone, Debug)]
pub struct TextureCache {
    sources: Vec<String>,
}

impl View for TextureCache {
    type V = Seq<Seq<char>>;

    /// The sources in the order in which they were first acquired. The
    /// texture of `self@[i]` has the handle with id `i`.
    closed spec fn view(&self) -> Seq<Seq<char>> {
        names_of(self.sources@)
    }
}

impl TextureCache {
    /// No source is held twice.
    pub open spec fn wf(&self) -> bool {
        self@.no_duplicates()
    }

    /// Whether `handle` names a texture of this cache.
    pub open spec fn holds(&self, handle: TextureHandle) -> bool {
        handle.id < self@.len()
    }

    /// An empty cache.
    pub fn new() -> (cache: TextureCache)
        ensures
            cache@ == Seq::<Seq<char>>::empty(),
            cache.wf(),
    {
        TextureCache { sources: Vec::new() }
    }

    /// The number of textures, which is the number of uploads so far.
    pub fn len(&self) -> (n: usize)
        ensures
            n == self@.len(),
    {
        self.sources.len()
    }

    /// The texture of a source, if the cache has one.
    pub fn lookup(&self, source: &str) -> (r: Option<TextureHandle>)
        ensures
            match r {
                Some(handle) => is_first_occurrence(self@, source@, handle.id as int),
                None => !self@.contains(source@),
            },
    {
        let key = String::from_str(source);
        let mut i: usize = 0;
        while i < self.sources.len()
            invariant
                i <= self.sources.len(),
                key@ == source@,
                forall|j: int| 0 <= j < i ==> self@[j] != source@,
            decreases self.sources.len() - i,
        {
            if self.sources[i] == key {
                return Some(TextureHandle { id: i });
            }
            i += 1;
        }
        None
    }

    /// Returns the texture for a source. The first request for a source
    /// adds it to the cache and reports it as fresh; every later request
    /// returns the same handle and changes nothing.
    pub fn acquire(&mut self, source: &str) -> (r: Acquired)
        ensures
            final(self)@ == acquired(old(self)@, source@),
            is_first_occurrence(final(self)@, source@, r.handle.id as int),
            r.fresh == !old(self)@.contains(source@),
            old(self).wf() ==> final(self).wf(),
    {
        match self.lookup(source) {
            Some(handle) => Acquired { handle, fresh: false },
            None => {
                let id = self.sources.len();
                self.sources.push(String::from_str(source));
                proof {
                    assert(final(self)@ =~= old(self)@.push(source@));
                    if old(self).wf() {
                        lemma_acquired_keeps_distinct(old(self)@, source@);
                    }
                }
                Acquired { handle: TextureHandle { id }, fresh: true }
            },
        }
    }

    /// Closes an acquisition once the backend has reported on the upload
    /// it called for. A texture that was not fresh needed no upload and
    /// stands whatever the report says. For a fresh texture a failure is
    /// returned as its error, and the cache forgets the source again,
    /// provided that nothing was acquired after it.
    pub fn settle(&mut self, acquisition: Acquired, report: UploadReport) -> (r: Result<
        TextureHandle,
        RenderError,
    >)
        ensures
            r == settled(acquisition, report),
            final(self)@ == after_settling(old(self)@, acquisition, report),
            old(self).wf() ==> final(self).wf(),
    {
        if !acquisition.fresh {
            return Ok(acquisition.handle);
        }
        match report.to_error() {
            None => Ok(acquisition.handle),
            Some(e) => {
                let n = self.sources.len();
                if n > 0 && acquisition.handle.id == n - 1 {
                    self.forget_from(acquisition.handle.id);
                }
                Err(e)
            },
        }
    }

    /// Forgets every texture from handle id `len` on.
    pub(crate) fn forget_from(&mut self, len: usize)
        requires
            len <= old(self)@.len(),
        ensures
            final(self)@ == old(self)@.take(len as int),
            old(self).wf() ==> final(self).wf(),
    {
        self.sources.truncate(len);
        assert(final(self)@ =~= old(self)@.take(len as int));
    }

    /// The source of a texture; `None` when the handle names none.
    pub fn source(&self, handle: TextureHandle) -> (r: Option<&String>)
        ensures
            match r {
                Some(s) => self.holds(handle) && s@ == self@[handle.id as int],
                None => !self.holds(handle),
            },
    {
        if handle.id < self.sources.len() {
            Some(&self.sources[handle.id])
        } else {
            None
        }
    }

    /// The command that binds a texture to a texture unit and points the
    /// sampler of that unit at it. Fails with
    /// [`RenderError::ShaderUniform`] when no sampler reads from the unit,
    /// and otherwise with [`RenderError::GpuResource`] when the handle names
    /// no texture of this cache.
    pub fn bind(&self, handle: TextureHandle, unit: u32) -> (r: Result<Command, RenderError>)
        ensures
            r == bound(self@.len(), handle, unit),
    {
        match sampler_for_unit(unit) {
            None => Err(RenderError::ShaderUniform),
            Some(sampler) => {
                if handle.id < self.sources.len() {
                    Ok(Command::BindTexture { sampler, texture: handle, unit })
                } else {
                    Err(RenderError::GpuResource)
                }
            },
        }
    }
}

/// What settling an acquisition returns.
pub open spec fn settled(acquisition: Acquired, report: UploadReport) -> Result<
    TextureHandle,
    RenderError,
> {
    if !acquisition.fresh {
        Ok(acquisition.handle)
    } else {
        match report.error() {
            None => Ok(acquisition.handle),
            Some(e) => Err(e),
        }
    }
}

/// The sources a cache knows after an acquisition has been settled.
pub open spec fn after_settling(
    sources: Seq<Seq<char>>,
    acquisition: Acquired,
    report: UploadReport,
) -> Seq<Seq<char>> {
    if acquisition.fresh && report.error() is Some && acquisition.handle.id + 1 == sources.len() {
        sources.drop_last()
    } else {
        sources
    }
}

/// The outcome of binding `handle` to `unit` in a cache of `textures`
/// textures.
pub open spec fn bound(textures: nat, handle: TextureHandle, unit: u32) -> Result<
    Command,
    RenderError,
> {
    match sampler_at(unit) {
        None => Err(RenderError::ShaderUniform),
        Some(sampler) => if handle.id < textures {
            Ok(Command::BindTexture { sampler, texture: handle, unit })
        } else {
            Err(RenderError::GpuResource)
        },
    }
}

/// Acquiring never makes a cache hold a source twice.
pub proof fn lemma_acquired_keeps_distinct(sources: Seq<Seq<char>>, source: Seq<char>)
    requires
        sources.no_duplicates(),
    ensures
        acquired(sources, source).no_duplicates(),
{
}

/// Two requests for one source return one handle, and the second request
/// adds nothing to the cache, so that nothing is uploaded for it.
pub proof fn law_same_source_same_handle(
    sources: Seq<Seq<char>>,
    source: Seq<char>,
    first: int,
    second: int,
)
    requires
        is_first_occurrence(acquired(sources, source), source, first),
        is_first_occurrence(acquired(acquired(sources, source), source), source, second),
    ensures
        first == second,
        acquired(sources, source).contains(source),
        acquired(acquired(sources, source), source) == acquired(sources, source),
{
    let once = acquired(sources, source);
    if !sources.contains(source) {
        assert(once[sources.len() as int] == source);
    }
    assert(once.contains(source));
}

/// An acquisition whose upload failed leaves no trace: settling it right
/// away gives back the cache as it was before the source was acquired.
pub proof fn law_failed_acquisition_leaves_no_trace(
    sources: Seq<Seq<char>>,
    source: Seq<char>,
    acquisition: Acquired,
    report: UploadReport,
)
    requires
        is_first_occurrence(acquired(sources, source), source, acquisition.handle.id as int),
        acquisition.fresh == !sources.contains(source),
        report.error() is Some,
    ensures
        after_settling(acquired(sources, source), acquisition, report) == sources,
{
    if !sources.contains(source) {
        assert(acquired(sources, source).drop_last() =~= sources);
    }
}

/// A handle keeps naming its source whatever else is acquired afterwards.
pub proof fn law_handles_are_stable(
    sources: Seq<Seq<char>>,
    held: Seq<char>,
    handle: int,
    other: Seq<char>,
)
    requires
        is_first_occurrence(sources, held, handle),
    ensures
        is_first_occurrence(acquired(sources, other), held, handle),
{
}

/// In a cache that holds no source twice, each source is acquired, and so
/// uploaded, once: a request grows the cache by one when the source is new
/// and not at all when it is known, and different sources have different
/// handles.
pub proof fn law_one_upload_per_source(
    sources: Seq<Seq<char>>,
    source: Seq<char>,
    other: Seq<char>,
    handle: int,
    other_handle: int,
)
    requires
        sources.no_duplicates(),
        is_first_occurrence(sources, source, handle),
        is_first_occurrence(sources, other, other_handle),
    ensures
        acquired(sources, source) == sources,
        handle == other_handle <==> source == other,
        forall|fresh: Seq<char>|
            !sources.contains(fresh) ==> (#[trigger] acquired(sources, fresh)).len()
                == sources.len() + 1,
{
}

} // verus!
