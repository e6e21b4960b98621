//! Driver factory: maps a power supply model to the driver that serves it.
use vstd::prelude::*;

verus! {

/// Drivers this server can build.
#[derive(Clone, Copy, Debug, PartialEq, Eq, Structural)]
pub enum DriverKind {
    /// Virtual power supply for testing and development
    Emulator,
    /// Korad/RND KD3005P laboratory bench power supply
    Kd3005p,
}

/// Error of the driver factory
#[derive(Clone, Debug)]
pub enum FactoryError {
    /// No driver is registered for this model
    NoDriver(String),
}

impl FactoryError {
    /// Text of the error.
    pub open spec fn message_spec(&self) -> Seq<char> {
        match self {
            FactoryError::NoDriver(model) => "No driver found for model: "@ + model@,
        }
    }

    /// Text of the error
    pub fn message(&self) -> (r: String)
        ensures
            r@ == self.message_spec(),
    {
        match self {
            FactoryError::NoDriver(model) => String::from_str("No driver found for model: ").concat(
                model.as_str(),
            ),
        }
    }
}

/// The driver registered last for `model` among `entries`.
pub open spec fn find_driver(entries: Seq<(String, DriverKind)>, model: Seq<char>) -> Option<DriverKind>
    decreases entries.len(),
{
    if entries.len() == 0 {
        None
    } else if entries.last().0@ == model {
        Some(entries.last().1)
    } else {
        find_driver(entries.drop_last(), model)
    }
}

/// Registry of the drivers, keyed by model
#[derive(Clone, Debug)]
pub struct Factory {
    /// Registrations, oldest first; a later one for the same model wins
    entries: Vec<(String, DriverKind)>,
}

impl Factory {
    /// The driver registered for `model`.
    pub closed spec fn driver_for(&self, model: Seq<char>) -> Option<DriverKind> {
        find_driver(self.entries@, model)
    }

    /// A factory with no driver
    pub fn empty() -> (f: Self)
        ensures
            forall|m: Seq<char>| #[trigger] f.driver_for(m) is None,
    {
        Factory { entries: Vec::new() }
    }

    /// A factory with every driver of this server registered
    pub fn initialize() -> (f: Self)
        ensures
            f.driver_for("emulator"@) == Some(DriverKind::Emulator),
            f.driver_for("kd3005p"@) == Some(DriverKind::Kd3005p),
            forall|m: Seq<char>| #[trigger] f.driver_for(m) is Some ==> m == "emulator"@ || m == "kd3005p"@,
    {
        let mut f = Self::empty();
        f.register_driver(String::from_str("emulator"), DriverKind::Emulator);
        f.register_driver(String::from_str("kd3005p"), DriverKind::Kd3005p);
        proof {
            reveal_strlit("emulator");
            reveal_strlit("kd3005p");
            assert("emulator"@.len() != "kd3005p"@.len());
        }
        f
    }

    /// Register a new driver for a model, replacing any earlier one
    pub fn register_driver(&mut self, model: String, driver: DriverKind)
        ensures
            forall|m: Seq<char>| #[trigger] final(self).driver_for(m) == if m == model@ {
                Some(driver)
            } else {
                old(self).driver_for(m)
            },
    {
        let ghost before = self.entries@;
        self.entries.push((model, driver));
        assert(self.entries@.drop_last() =~= before);
    }

    /// The driver of a model
    pub fn instanciate_driver(&self, model: &str) -> (r: Result<DriverKind, FactoryError>)
        ensures
            r matches Ok(d) ==> self.driver_for(model@) == Some(d),
            r matches Err(FactoryError::NoDriver(m)) ==> self.driver_for(model@) is None && m@ == model@,
            r is Ok <==> self.driver_for(model@) is Some,
    {
        let mut i: usize = self.entries.len();
        assert(self.entries@.take(i as int) =~= self.entries@);
        while i > 0
            invariant
                i <= self.entries.len(),
                find_driver(self.entries@, model@) == find_driver(self.entries@.take(i as int), model@),
            decreases i,
        {
            assert(self.entries@.take(i as int).drop_last() =~= self.entries@.take(i - 1));
            if crate::text::str_eq(self.entries[i - 1].0.as_str(), model) {
                return Ok(self.entries[i - 1].1);
            }
            i = i - 1;
        }
        Err(FactoryError::NoDriver(model.to_owned()))
    }
}

} // verus!
