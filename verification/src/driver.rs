//! The context of the native library and its drivers.
//!
//! A driver is initialized at most once at a time: the initialized driver
//! must be released before the driver can be initialized again.
use crate::config::{scan_config, ScanEntry, ScanOption};
use crate::device::text_of;
use crate::enums::Function;
use crate::error::{status_of, SigrokError, SR_OK};
use crate::util::{c_str, get_functions, null_list_count};
use vstd::prelude::*;
use vstd::string::StringExecFns;

verus! {

/// The main Sigrok instance.
#[derive(Debug)]
pub struct Sigrok {}

/// A driver, as obtained by [`Sigrok::drivers`].
#[derive(Debug, Clone)]
pub struct Driver {
    name: String,
    long_name: String,
    api_version: i32,
    initialized: bool,
}

/// An initialized driver, as obtained by [`Driver::init`].
#[derive(Debug)]
pub struct DriverContext(Driver);

impl Sigrok {
    /// Judges the status code with which the native library was set up.
    pub fn new(code: i32) -> (r: Result<Sigrok, SigrokError>)
        ensures
            r is Ok <==> code == SR_OK,
            r matches Err(e) ==> status_of(code) == Err::<(), SigrokError>(e),
    {
        match SigrokError::from(code) {
            Ok(()) => Ok(Sigrok {}),
            Err(e) => Err(e),
        }
    }

    /// List all the drivers available: the entries of the native list up to
    /// its closing null entry.
    pub fn drivers<'a>(&self, list: &'a [Option<Driver>]) -> (r: Vec<&'a Driver>)
        requires
            exists|i: int| 0 <= i < list@.len() && list@[i] is None,
        ensures
            r@.len() < list@.len(),
            list@[r@.len() as int] is None,
            forall|i: int| 0 <= i < r@.len() ==> list@[i] == Some(*#[trigger] r@[i]),
    {
        let count = null_list_count(list);
        let mut drivers: Vec<&Driver> = Vec::with_capacity(count);
        let mut i: usize = 0;
        while i < count
            invariant
                i <= count,
                count < list@.len(),
                forall|j: int| 0 <= j < count ==> list@[j] is Some,
                drivers@.len() == i,
                forall|j: int| 0 <= j < i ==> list@[j] == Some(*#[trigger] drivers@[j]),
            decreases count - i,
        {
            match &list[i] {
                Some(driver) => {
                    drivers.push(driver);
                },
                None => {},
            }
            i = i + 1;
        }
        drivers
    }

    /// Whether the native library was shut down in order. A context whose
    /// teardown fails cannot be recovered: the caller aborts.
    pub fn exited(code: i32) -> (ok: bool)
        ensures
            ok <==> code == SR_OK,
    {
        code == SR_OK
    }
}

impl Driver {
    /// A driver as the native library describes it. `initialized` tells
    /// whether the native driver holds a context at this moment.
    pub fn new(name: Option<&[u8]>, long_name: Option<&[u8]>, api_version: i32, initialized: bool) -> (r:
        Driver)
        ensures
            r.spec_name() == text_of(name),
            r.spec_long_name() == text_of(long_name),
            r.spec_api_version() == api_version,
            r.is_initialized() == initialized,
    {
        Driver { name: c_str(name), long_name: c_str(long_name), api_version, initialized }
    }

    pub closed spec fn spec_name(&self) -> Seq<char> {
        self.name@
    }

    pub closed spec fn spec_long_name(&self) -> Seq<char> {
        self.long_name@
    }

    pub closed spec fn spec_api_version(&self) -> i32 {
        self.api_version
    }

    /// Whether the driver is initialized.
    pub closed spec fn is_initialized(&self) -> bool {
        self.initialized
    }

    /// The name of the driver.
    pub fn name(&self) -> (r: &str)
        ensures
            r@ == self.spec_name(),
    {
        self.name.as_str()
    }

    pub fn long_name(&self) -> (r: &str)
        ensures
            r@ == self.spec_long_name(),
    {
        self.long_name.as_str()
    }

    #[verifier::when_used_as_spec(spec_api_version)]
    pub fn api_version(&self) -> (r: i32)
        ensures
            r == self.spec_api_version(),
    {
        self.api_version
    }

    /// Whether the driver is initialized.
    pub fn initialized(&self) -> (r: bool)
        ensures
            r == self.is_initialized(),
    {
        self.initialized
    }

    /// The functions of the driver, from the keys that the native library
    /// enumerates for it.
    pub fn functions(&self, keys: Option<&[u32]>) -> (r: Result<Vec<Function>, SigrokError>)
        ensures
            match r {
                Ok(functions) => keys matches Some(k) && functions@ == crate::util::functions_of(
                    k@,
                ),
                Err(e) => keys is None && e == SigrokError::Generic,
            },
    {
        get_functions(keys)
    }

    /// The words with which a second initialization is turned down: they
    /// name the driver by its name and its long name.
    pub open spec fn spec_already_initialized(&self) -> Seq<char> {
        "Driver \""@ + self.spec_name() + "\" ("@ + self.spec_long_name()
            + ") already initialized"@
    }

    /// The words with which a second initialization is turned down.
    pub fn already_initialized(&self) -> (message: String)
        ensures
            message@ == self.spec_already_initialized(),
    {
        let mut message = String::from_str("Driver \"");
        message.append(self.name.as_str());
        message.append("\" (");
        message.append(self.long_name.as_str());
        message.append(") already initialized");
        message
    }

    /// Decides whether the driver may be initialized now. A driver that is
    /// initialized may not: it is refused with the words that name it, and
    /// the native initialization is not to be called. Every other driver
    /// may.
    pub fn guard_init(&self) -> (r: Result<(), String>)
        ensures
            r is Err <==> self.is_initialized(),
            r matches Err(message) ==> message@ == self.spec_already_initialized(),
    {
        if self.initialized {
            Err(self.already_initialized())
        } else {
            Ok(())
        }
    }

    /// The refusal of a second initialization identifies the driver: after
    /// the opening words comes the name of the driver in full, and after
    /// three more characters its long name in full.
    pub proof fn lemma_refusal_names_driver(&self)
        ensures
            ({
                let message = self.spec_already_initialized();
                let name = self.spec_name();
                let long_name = self.spec_long_name();
                let n = name.len() as int;
                let l = long_name.len() as int;
                &&& message.len() == 8 + n + 3 + l + 21
                &&& message.subrange(8, 8 + n) == name
                &&& message.subrange(8 + n + 3, 8 + n + 3 + l) == long_name
            }),
    {
        reveal_strlit("Driver \"");
        reveal_strlit("\" (");
        reveal_strlit(") already initialized");
        let message = self.spec_already_initialized();
        let name = self.spec_name();
        let long_name = self.spec_long_name();
        let n = name.len() as int;
        let l = long_name.len() as int;
        assert(message.subrange(8, 8 + n) =~= name);
        assert(message.subrange(8 + n + 3, 8 + n + 3 + l) =~= long_name);
    }

    /// Initialize the driver, given the status code of the native
    /// initialization. It is an error to call this on a driver that is
    /// initialized: such a driver must be released first.
    pub fn init(&self, code: i32) -> (r: Result<DriverContext, SigrokError>)
        requires
            !self.is_initialized(),
        ensures
            r is Ok <==> code == SR_OK,
            r matches Ok(context) ==> context.driver().is_initialized()
                && context.driver().spec_name() == self.spec_name()
                && context.driver().spec_long_name() == self.spec_long_name()
                && context.driver().spec_api_version() == self.spec_api_version(),
            r matches Err(e) ==> status_of(code) == Err::<(), SigrokError>(e),
    {
        match SigrokError::from(code) {
            Ok(()) => Ok(
                DriverContext(
                    Driver {
                        name: self.name.clone(),
                        long_name: self.long_name.clone(),
                        api_version: self.api_version,
                        initialized: true,
                    },
                ),
            ),
            Err(e) => Err(e),
        }
    }
}

impl DriverContext {
    /// The driver that is initialized.
    pub closed spec fn driver(&self) -> Driver {
        self.0
    }

    #[verifier::type_invariant]
    closed spec fn inv(self) -> bool {
        self.0.initialized
    }

    /// The driver that is initialized.
    pub fn deref(&self) -> (r: &Driver)
        ensures
            *r == self.driver(),
            r.is_initialized(),
    {
        proof {
            use_type_invariant(self);
        }
        &self.0
    }

    /// Scan for devices: builds the list of keys and values that is handed
    /// to the native scan, one entry for each option, in order. It fails
    /// where a string option holds a zero byte.
    pub fn scan(&self, scan_options: &[ScanOption]) -> (r: Result<Vec<ScanEntry>, SigrokError>)
        ensures
            match r {
                Ok(list) => {
                    &&& crate::config::first_unencodable(scan_options@) is None
                    &&& list@.len() == scan_options@.len()
                    &&& forall|i: int|
                        0 <= i < list@.len() ==> (#[trigger] list@[i]).key
                            == scan_options@[i].spec_key() && scan_options@[i].encoded() == Ok::<
                            crate::variant::Tree,
                            SigrokError,
                        >(list@[i].data@)
                },
                Err(e) => crate::config::first_unencodable(scan_options@) matches Some(i)
                    && scan_options@[i].encoded() == Err::<crate::variant::Tree, SigrokError>(e),
            },
    {
        scan_config(scan_options)
    }

    /// Ends the initialization: after the native cleanup the driver can be
    /// initialized again.
    pub fn release(self) -> (r: Driver)
        ensures
            !r.is_initialized(),
            r.spec_name() == self.driver().spec_name(),
            r.spec_long_name() == self.driver().spec_long_name(),
            r.spec_api_version() == self.driver().spec_api_version(),
    {
        Driver {
            name: self.0.name,
            long_name: self.0.long_name,
            api_version: self.0.api_version,
            initialized: false,
        }
    }
}

} // verus!
