use hassle_rs::{DxcPack, Event, HassleError, Phase, Record, Resource, Step};

const ORDER: [Resource; 5] = [
    Resource::CompilerSubsystem,
    Resource::Compiler,
    Resource::Library,
    Resource::ValidatorSubsystem,
    Resource::Validator,
];

/// A stand-in for the native toolchain: it records what it is asked to
/// acquire and release, and refuses one resource if told so.
struct Recorder {
    refuse: Option<Resource>,
    log: Vec<Record>,
    attempts: Vec<Resource>,
}

impl Recorder {
    fn new(refuse: Option<Resource>) -> Recorder {
        Recorder { refuse, log: Vec::new(), attempts: Vec::new() }
    }

    /// Does what the pack asks until it asks for nothing more.
    fn drive(&mut self, pack: &mut DxcPack) -> Step {
        let mut step = pack.pending();
        for _ in 0..64 {
            step = match step {
                Step::Acquire(r) => {
                    self.attempts.push(r);
                    if self.refuse == Some(r) {
                        pack.advance(Event::AcquireFailed)
                    } else {
                        self.log.push(Record::Acquired(r));
                        pack.advance(Event::Acquired)
                    }
                }
                Step::Release(r) => {
                    self.log.push(Record::Released(r));
                    pack.advance(Event::Released)
                }
                settled => return settled,
            };
        }
        panic!("the pack never settled");
    }

    fn count(&self, record: Record) -> usize {
        self.log.iter().filter(|r| **r == record).count()
    }
}

/// Plays a log against a stack; `None` where the log breaks the discipline.
fn replay(log: &[Record]) -> Option<Vec<Resource>> {
    let mut stack: Vec<Resource> = Vec::new();
    for record in log {
        match *record {
            Record::Acquired(r) => {
                if stack.contains(&r) {
                    return None;
                }
                stack.push(r);
            }
            Record::Released(r) => {
                if stack.pop() != Some(r) {
                    return None;
                }
            }
        }
    }
    Some(stack)
}

#[test]
fn create_holds_nothing_and_asks_for_the_compiler_subsystem() {
    let pack = DxcPack::create();
    assert_eq!(pack.phase(), Phase::Uninitialized);
    assert!(!pack.is_ready());
    assert_eq!(pack.held(), Vec::<Resource>::new());
    assert_eq!(pack.pending(), Step::Acquire(Resource::CompilerSubsystem));
    assert_eq!(pack.failure(), None);
}

#[test]
fn construction_acquires_in_the_fixed_order() {
    let mut pack = DxcPack::create();
    let mut toolchain = Recorder::new(None);
    assert_eq!(toolchain.drive(&mut pack), Step::Ready);
    assert!(pack.is_ready());
    assert_eq!(pack.phase(), Phase::Ready);
    assert_eq!(pack.held(), ORDER.to_vec());
    assert_eq!(toolchain.attempts, ORDER.to_vec());
    assert_eq!(
        toolchain.log,
        vec![
            Record::Acquired(Resource::CompilerSubsystem),
            Record::Acquired(Resource::Compiler),
            Record::Acquired(Resource::Library),
            Record::Acquired(Resource::ValidatorSubsystem),
            Record::Acquired(Resource::Validator),
        ]
    );
    assert_eq!(pack.failure(), None);
}

#[test]
fn each_step_of_construction_reports_the_next() {
    let mut pack = DxcPack::create();
    assert_eq!(pack.advance(Event::Acquired), Step::Acquire(Resource::Compiler));
    assert_eq!(pack.held(), vec![Resource::CompilerSubsystem]);
    assert_eq!(pack.advance(Event::Acquired), Step::Acquire(Resource::Library));
    assert_eq!(pack.advance(Event::Acquired), Step::Acquire(Resource::ValidatorSubsystem));
    assert_eq!(pack.advance(Event::Acquired), Step::Acquire(Resource::Validator));
    assert_eq!(pack.phase(), Phase::Uninitialized);
    assert_eq!(pack.advance(Event::Acquired), Step::Ready);
    assert_eq!(pack.phase(), Phase::Ready);
}

#[test]
fn teardown_releases_in_reverse_order() {
    let mut pack = DxcPack::create();
    let mut toolchain = Recorder::new(None);
    assert_eq!(toolchain.drive(&mut pack), Step::Ready);
    assert_eq!(pack.advance(Event::Close), Step::Release(Resource::Validator));
    assert_eq!(pack.phase(), Phase::Releasing);
    assert_eq!(toolchain.drive(&mut pack), Step::Closed);
    assert_eq!(pack.phase(), Phase::Finished);
    assert_eq!(pack.held(), Vec::<Resource>::new());
    assert_eq!(
        toolchain.log[5..].to_vec(),
        vec![
            Record::Released(Resource::Validator),
            Record::Released(Resource::ValidatorSubsystem),
            Record::Released(Resource::Library),
            Record::Released(Resource::Compiler),
            Record::Released(Resource::CompilerSubsystem),
        ]
    );
    assert_eq!(replay(&toolchain.log), Some(Vec::new()));
}

#[test]
fn validator_subsystem_failure_releases_the_compiler_side_once() {
    let mut pack = DxcPack::create();
    let mut toolchain = Recorder::new(Some(Resource::ValidatorSubsystem));
    assert_eq!(toolchain.drive(&mut pack), Step::Failed(Resource::ValidatorSubsystem));
    assert_eq!(pack.failure(), Some(HassleError::LoadError));
    assert_eq!(pack.phase(), Phase::Finished);
    assert_eq!(pack.held(), Vec::<Resource>::new());
    assert_eq!(
        toolchain.log,
        vec![
            Record::Acquired(Resource::CompilerSubsystem),
            Record::Acquired(Resource::Compiler),
            Record::Acquired(Resource::Library),
            Record::Released(Resource::Library),
            Record::Released(Resource::Compiler),
            Record::Released(Resource::CompilerSubsystem),
        ]
    );
    for r in [Resource::CompilerSubsystem, Resource::Compiler, Resource::Library] {
        assert_eq!(toolchain.count(Record::Acquired(r)), 1);
        assert_eq!(toolchain.count(Record::Released(r)), 1);
    }
    for r in [Resource::ValidatorSubsystem, Resource::Validator] {
        assert_eq!(toolchain.count(Record::Acquired(r)), 0);
        assert_eq!(toolchain.count(Record::Released(r)), 0);
    }
    assert_eq!(toolchain.attempts.len(), 4);
}

#[test]
fn a_failure_at_any_step_unwinds_what_was_acquired() {
    for (k, refused) in ORDER.iter().enumerate() {
        let mut pack = DxcPack::create();
        let mut toolchain = Recorder::new(Some(*refused));
        assert_eq!(toolchain.drive(&mut pack), Step::Failed(*refused));
        assert_eq!(toolchain.attempts, ORDER[..=k].to_vec());
        assert_eq!(toolchain.log.len(), 2 * k);
        for i in 0..k {
            assert_eq!(toolchain.log[i], Record::Acquired(ORDER[i]));
            assert_eq!(toolchain.log[k + i], Record::Released(ORDER[k - 1 - i]));
        }
        assert_eq!(replay(&toolchain.log), Some(Vec::new()));
        assert!(!pack.is_ready());
        assert_eq!(pack.held(), Vec::<Resource>::new());
    }
}

#[test]
fn a_module_that_does_not_load_is_a_load_error() {
    for refused in [Resource::CompilerSubsystem, Resource::ValidatorSubsystem] {
        let mut pack = DxcPack::create();
        Recorder::new(Some(refused)).drive(&mut pack);
        assert_eq!(pack.failure(), Some(HassleError::LoadError));
    }
}

#[test]
fn a_service_that_is_not_created_is_a_creation_error() {
    for refused in [Resource::Compiler, Resource::Library, Resource::Validator] {
        let mut pack = DxcPack::create();
        Recorder::new(Some(refused)).drive(&mut pack);
        assert_eq!(pack.failure(), Some(HassleError::CreationError));
    }
}

#[test]
fn a_failure_of_the_first_acquisition_finishes_at_once() {
    let mut pack = DxcPack::create();
    assert_eq!(pack.advance(Event::AcquireFailed), Step::Failed(Resource::CompilerSubsystem));
    assert_eq!(pack.phase(), Phase::Finished);
    assert_eq!(pack.failure(), Some(HassleError::LoadError));
}

#[test]
fn reports_that_answer_nothing_change_nothing() {
    let mut pack = DxcPack::create();
    assert_eq!(pack.advance(Event::Released), Step::Acquire(Resource::CompilerSubsystem));
    assert_eq!(pack.held(), Vec::<Resource>::new());
    Recorder::new(None).drive(&mut pack);
    for stray in [Event::Acquired, Event::AcquireFailed, Event::Released] {
        assert_eq!(pack.advance(stray), Step::Ready);
        assert_eq!(pack.held(), ORDER.to_vec());
        assert_eq!(pack.failure(), None);
    }
    pack.advance(Event::Close);
    for stray in [Event::Acquired, Event::AcquireFailed, Event::Close] {
        assert_eq!(pack.advance(stray), Step::Release(Resource::Validator));
        assert_eq!(pack.held(), ORDER.to_vec());
    }
    Recorder::new(None).drive(&mut pack);
    for stray in [Event::Acquired, Event::AcquireFailed, Event::Released, Event::Close] {
        assert_eq!(pack.advance(stray), Step::Closed);
        assert_eq!(pack.phase(), Phase::Finished);
    }
}

#[test]
fn closing_during_construction_releases_what_is_held() {
    let mut pack = DxcPack::create();
    pack.advance(Event::Acquired);
    pack.advance(Event::Acquired);
    assert_eq!(pack.advance(Event::Close), Step::Release(Resource::Compiler));
    assert_eq!(pack.advance(Event::Released), Step::Release(Resource::CompilerSubsystem));
    assert_eq!(pack.advance(Event::Released), Step::Closed);
    assert_eq!(pack.failure(), None);
}

#[test]
fn closing_an_empty_pack_finishes_at_once() {
    let mut pack = DxcPack::create();
    assert_eq!(pack.advance(Event::Close), Step::Closed);
    assert_eq!(pack.phase(), Phase::Finished);
}

#[test]
fn a_failed_pack_keeps_its_failure() {
    let mut pack = DxcPack::create();
    let mut toolchain = Recorder::new(Some(Resource::Validator));
    toolchain.drive(&mut pack);
    for stray in [Event::Acquired, Event::Close, Event::Released, Event::AcquireFailed] {
        assert_eq!(pack.advance(stray), Step::Failed(Resource::Validator));
    }
    assert_eq!(pack.failure(), Some(HassleError::CreationError));
}

#[test]
fn resources_know_their_place() {
    for (i, r) in ORDER.iter().enumerate() {
        assert_eq!(r.position(), i);
        assert_eq!(Resource::at(i), Some(*r));
    }
    assert_eq!(Resource::at(5), None);
    assert_eq!(Resource::at(usize::MAX), None);
    assert!(Resource::CompilerSubsystem.loads_module());
    assert!(Resource::ValidatorSubsystem.loads_module());
    assert!(!Resource::Compiler.loads_module());
    assert!(!Resource::Library.loads_module());
    assert!(!Resource::Validator.loads_module());
}
