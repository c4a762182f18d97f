//! Test registry.
//!
//! An ordered list of test descriptors, assembled by one registration call
//! per test.  The position of a descriptor is its canonical index.  Because
//! the selection value 255 is reserved for "run all tests", the registry
//! hard-caps at 254 entries; registration makes the limit explicit instead
//! of silently truncating.

use vstd::prelude::*;

verus! {

/// The largest number of tests a registry can hold: index 255 is reserved
/// for the "run all tests" selection.
pub const MAX_TESTS: usize = 254;

/// One registered test: its name and whether it is expected to panic.
/// The test body itself stays with the host; the registry's order ties a
/// descriptor to its body by index.
pub struct TestDescriptor {
    /// The test's name, as ASCII bytes for the console protocol.
    pub name: Vec<u8>,
    /// True for a should-panic test: it succeeds iff it faults.
    pub expect_panic: bool,
}

/// Registering one more test failed.
#[derive(Clone, Copy, PartialEq, Eq, Structural, Debug)]
pub enum RegistryError {
    /// The registry already holds [`MAX_TESTS`] tests.
    Full,
}

/// The ordered test list of one test module.
pub struct Registry {
    /// The module name, prefixed to every test name in console output.
    pub module: Vec<u8>,
    /// The registered tests, in registration order.
    pub tests: Vec<TestDescriptor>,
}

impl Registry {
    /// The registry never exceeds the hard cap.
    pub open spec fn wf(self) -> bool {
        self.tests@.len() <= MAX_TESTS
    }

    /// The expected-panic flag of test `i`.
    pub open spec fn spec_expect_panic(self, i: int) -> bool {
        self.tests@[i].expect_panic
    }

    /// The expected-panic flags of the registered tests, in order.
    pub open spec fn spec_expects(self) -> Seq<bool> {
        self.tests@.map_values(|t: TestDescriptor| t.expect_panic)
    }

    /// Creates an empty registry for the test module named `module`.
    pub fn new(module: Vec<u8>) -> (r: Registry)
        ensures
            r.module@ == module@,
            r.tests@ == Seq::<TestDescriptor>::empty(),
            r.wf(),
    {
        Registry { module, tests: Vec::new() }
    }

    /// Registers one more test at the next index.  Refused once the cap is
    /// reached, leaving the registry unchanged.
    pub fn add(&mut self, name: Vec<u8>, expect_panic: bool) -> (r: Result<(), RegistryError>)
        requires
            old(self).wf(),
        ensures
            final(self).wf(),
            final(self).module@ == old(self).module@,
            old(self).tests@.len() < MAX_TESTS ==> {
                &&& r == Ok::<(), RegistryError>(())
                &&& final(self).tests@.len() == old(self).tests@.len() + 1
                &&& final(self).tests@.last().name@ == name@
                &&& final(self).tests@.last().expect_panic == expect_panic
                &&& final(self).tests@.drop_last() == old(self).tests@
            },
            old(self).tests@.len() >= MAX_TESTS ==> {
                &&& r == Err::<(), RegistryError>(RegistryError::Full)
                &&& final(self).tests@ == old(self).tests@
            },
    {
        if self.tests.len() < MAX_TESTS {
            self.tests.push(TestDescriptor { name, expect_panic });
            proof {
                assert(self.tests@.drop_last() =~= old(self).tests@);
            }
            Ok(())
        } else {
            Err(RegistryError::Full)
        }
    }

    /// The number of registered tests.  Fits in a byte because of the cap.
    pub fn len(&self) -> (r: u8)
        requires
            self.wf(),
        ensures
            r as int == self.tests@.len(),
    {
        self.tests.len() as u8
    }

    /// The descriptor of test `index`.
    pub fn get(&self, index: u8) -> (r: &TestDescriptor)
        requires
            (index as int) < self.tests@.len(),
        ensures
            *r == self.tests@[index as int],
    {
        &self.tests[index as usize]
    }
}

} // verus!
