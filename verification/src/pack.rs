//! The pack: five native resources with one owner, and the runs through them.
use crate::blob::{create_blob_from_bytes, create_blob_from_text, BlobView, Encoding, Ownership};
use crate::error::{ErrorView, HassleError};
use crate::job::{validation_blob, CompileRequest, Job, JobView, RequestView};
use crate::lifecycle::{Event, PackModel, Phase, Step};
use crate::resource::{acquisition_order, Resource, RESOURCE_COUNT};
use vstd::prelude::*;
use vstd::utf8::encode_utf8;

verus! {

/// The owner of the compiler subsystem, the compiler, the blob library, the
/// validator subsystem and the validator.
///
/// The pack does not touch the native resources itself. It tells its driver
/// what to acquire or release next, takes the driver's reports, and so keeps
/// the order: acquisition in the fixed order, release in exactly the reverse.
#[derive(Debug)]
pub struct DxcPack {
    acquired: usize,
    phase: Phase,
    failed: Option<Resource>,
}

impl View for DxcPack {
    type V = PackModel;

    closed spec fn view(&self) -> PackModel {
        PackModel {
            held: acquisition_order().take(self.acquired as int),
            phase: self.phase,
            failed: self.failed,
        }
    }
}

/// The error with which construction fails when `resource` cannot be acquired:
/// a module that does not load, or a factory that creates no service.
pub open spec fn failure_of(resource: Resource) -> ErrorView {
    if resource.is_subsystem() {
        ErrorView::LoadError
    } else {
        ErrorView::CreationError
    }
}

/// The request that a run starts with.
pub open spec fn compile_request(
    source_name: Seq<char>,
    shader_text: Seq<char>,
    entry_point: Option<Seq<char>>,
    target_profile: Seq<char>,
    args: Seq<Seq<char>>,
    defines: Seq<(Seq<char>, Option<Seq<char>>)>,
) -> RequestView {
    RequestView {
        source: BlobView {
            bytes: encode_utf8(shader_text),
            encoding: Encoding::Utf8,
            ownership: Ownership::Caller,
        },
        source_name,
        entry_point,
        target_profile,
        args,
        defines,
    }
}

fn owned_texts(texts: &[&str]) -> (out: Vec<String>)
    ensures
        out.deep_view() == texts.deep_view(),
{
    let mut out: Vec<String> = Vec::new();
    let mut i: usize = 0;
    while i < texts.len()
        invariant
            i <= texts@.len(),
            out@.len() == i,
            forall|k: int| 0 <= k < i ==> out@[k]@ == texts@[k]@,
        decreases texts@.len() - i,
    {
        out.push(texts[i].to_owned());
        i = i + 1;
    }
    assert(out.deep_view() =~= texts.deep_view());
    out
}

fn owned_defines(defines: &[(&str, Option<&str>)]) -> (out: Vec<(String, Option<String>)>)
    ensures
        out.deep_view() == defines.deep_view(),
{
    let mut out: Vec<(String, Option<String>)> = Vec::new();
    let mut i: usize = 0;
    while i < defines.len()
        invariant
            i <= defines@.len(),
            out@.len() == i,
            forall|k: int| 0 <= k < i ==> out@[k].deep_view() == defines@[k].deep_view(),
        decreases defines@.len() - i,
    {
        let name: String = defines[i].0.to_owned();
        let value: Option<String> = match defines[i].1 {
            Some(v) => Some(v.to_owned()),
            None => None,
        };
        out.push((name, value));
        i = i + 1;
    }
    assert(out.deep_view() =~= defines.deep_view());
    out
}

impl DxcPack {
    #[verifier::type_invariant]
    spec fn well_formed(&self) -> bool {
        self.acquired <= RESOURCE_COUNT && self@.wf()
    }

    /// Begins the construction of a pack.
    ///
    /// Nothing is held yet. The driver acquires what [`DxcPack::pending`] asks
    /// for and reports each result to [`DxcPack::advance`], until the pack is
    /// ready or has failed.
    pub fn create() -> (pack: DxcPack)
        ensures
            pack@ == PackModel::initial(),
    {
        let pack = DxcPack { acquired: 0, phase: Phase::Uninitialized, failed: None };
        assert(pack@.held =~= Seq::empty());
        pack
    }

    /// What the driver is to do next.
    pub fn pending(&self) -> (step: Step)
        ensures
            step == self@.pending(),
            self@.wf(),
    {
        proof {
            use_type_invariant(self);
        }
        match self.phase {
            Phase::Uninitialized => match Resource::at(self.acquired) {
                Some(r) => Step::Acquire(r),
                None => Step::Ready,
            },
            Phase::Ready => Step::Ready,
            Phase::Releasing => match Resource::at(self.acquired - 1) {
                Some(r) => Step::Release(r),
                None => Step::Closed,
            },
            Phase::Finished => match self.failed {
                Some(r) => Step::Failed(r),
                None => Step::Closed,
            },
        }
    }

    /// Takes a report from the driver and says what is to be done next.
    pub fn advance(&mut self, event: Event) -> (step: Step)
        ensures
            final(self)@ == old(self)@.apply(event),
            step == final(self)@.pending(),
            final(self)@.wf(),
    {
        proof {
            use_type_invariant(&*self);
        }
        let held: usize = self.acquired;
        let next = match (self.phase, event) {
            (Phase::Uninitialized, Event::Acquired) => {
                let phase = if held + 1 == RESOURCE_COUNT {
                    Phase::Ready
                } else {
                    Phase::Uninitialized
                };
                DxcPack { acquired: held + 1, phase, failed: None }
            },
            (Phase::Uninitialized, Event::AcquireFailed) => DxcPack {
                acquired: held,
                phase: Self::winding_down(held),
                failed: Resource::at(held),
            },
            (Phase::Releasing, Event::Released) => DxcPack {
                acquired: held - 1,
                phase: Self::winding_down(held - 1),
                failed: self.failed,
            },
            (Phase::Uninitialized, Event::Close) | (Phase::Ready, Event::Close) => DxcPack {
                acquired: held,
                phase: Self::winding_down(held),
                failed: self.failed,
            },
            _ => DxcPack { acquired: held, phase: self.phase, failed: self.failed },
        };
        assert(next@.held =~= old(self)@.apply(event).held);
        *self = next;
        self.pending()
    }

    fn winding_down(remaining: usize) -> (phase: Phase)
        ensures
            phase == PackModel::winding_down(remaining as nat),
    {
        if remaining == 0 {
            Phase::Finished
        } else {
            Phase::Releasing
        }
    }

    /// Where the pack is in its life.
    pub fn phase(&self) -> (phase: Phase)
        ensures
            phase == self@.phase,
    {
        self.phase
    }

    /// Whether all five resources are held, so that source can be run.
    pub fn is_ready(&self) -> (b: bool)
        ensures
            b == (self@.phase == Phase::Ready),
    {
        self.phase == Phase::Ready
    }

    /// The resources that are held, oldest first.
    pub fn held(&self) -> (held: Vec<Resource>)
        ensures
            held@ == self@.held,
    {
        proof {
            use_type_invariant(self);
        }
        let mut held: Vec<Resource> = Vec::new();
        let mut i: usize = 0;
        while i < self.acquired
            invariant
                i <= self.acquired <= RESOURCE_COUNT,
                held@ == acquisition_order().take(i as int),
            decreases self.acquired - i,
        {
            match Resource::at(i) {
                Some(r) => {
                    held.push(r);
                },
                None => {},
            }
            assert(acquisition_order().take(i + 1) =~= acquisition_order().take(i as int).push(
                acquisition_order()[i as int],
            ));
            i = i + 1;
        }
        held
    }

    /// The error with which construction failed, if it did.
    ///
    /// A subsystem that could not be loaded gives `LoadError`, a service that
    /// could not be created gives `CreationError`.
    pub fn failure(&self) -> (error: Option<HassleError>)
        ensures
            self@.failed matches Some(r) ==> error is Some && error.unwrap()@ == failure_of(r),
            self@.failed is None ==> error is None,
    {
        match self.failed {
            Some(r) => if r.loads_module() {
                Some(HassleError::LoadError)
            } else {
                Some(HassleError::CreationError)
            },
            None => None,
        }
    }

    /// Begins a run of source through compilation and validation.
    ///
    /// The run starts with the request for the compiler: the source wrapped as
    /// UTF-8 text, and every other input as it was given. Nothing is validated,
    /// deduplicated or reordered here. The pack itself is not changed by a run,
    /// however the run ends.
    pub fn compile_validate(
        &self,
        source_name: &str,
        shader_text: &str,
        entry_point: Option<&str>,
        target_profile: &str,
        args: &[&str],
        defines: &[(&str, Option<&str>)],
    ) -> (job: Job)
        requires
            self@.phase == Phase::Ready,
        ensures
            job@ == JobView::Compile(
                compile_request(
                    source_name@,
                    shader_text@,
                    entry_point.deep_view(),
                    target_profile@,
                    args.deep_view(),
                    defines.deep_view(),
                ),
            ),
    {
        let entry: Option<String> = match entry_point {
            Some(e) => Some(e.to_owned()),
            None => None,
        };
        Job::Compile(
            CompileRequest {
                source: create_blob_from_text(shader_text),
                source_name: source_name.to_owned(),
                entry_point: entry,
                target_profile: target_profile.to_owned(),
                args: owned_texts(args),
                defines: owned_defines(defines),
            },
        )
    }

    /// Begins a run that only validates bytes which were compiled before.
    ///
    /// The bytes go to the validator as they are, wrapped anew with no
    /// encoding declared.
    pub fn validate(&self, compiled: &[u8]) -> (job: Job)
        requires
            self@.phase == Phase::Ready,
        ensures
            job@ == JobView::Validate(validation_blob(compiled@)),
    {
        Job::Validate(create_blob_from_bytes(compiled))
    }
}

} // verus!
