//! The parameters of the attribute that defines an async task, and the
//! rules that a task has to keep.

use vstd::prelude::*;

verus! {

/// What can be wrong with a parameter of the attribute.
#[derive(Debug, Copy, Clone, PartialEq, Eq, Structural)]
pub enum ParseError {
    /// The parameter is none of `autostart`, `peripherals` and `pool_size`.
    UnsupportedParameter,
    /// `pool_size` was given without a value.
    MissingValue,
}

/// Which rule a task breaks.
#[derive(Debug, Copy, Clone, PartialEq, Eq, Structural)]
pub enum TaskError {
    /// The function is not async.
    NotAsync,
    /// A pool size is set on a task that starts by itself.
    PoolSizeOnAutostart,
    /// A task that starts by itself takes parameters without asking for
    /// peripherals.
    ParametersWithoutPeripherals,
    /// A task asks for peripherals but does not start by itself.
    PeripheralsWithoutAutostart,
}

/// The parameters of the attribute, as far as they were read.
#[derive(Debug)]
pub struct Attributes {
    /// Whether the task starts by itself.
    pub autostart: bool,
    /// Whether the task is handed peripherals.
    pub peripherals: bool,
    /// The largest number of tasks of this function that run at once, as
    /// the expression that was written.
    pub pool_size: Option<String>,
}

/// What is known of the function that the attribute stands on.
#[derive(Debug, Copy, Clone, PartialEq, Eq, Structural)]
pub struct TaskFunction {
    /// Whether the function is async.
    pub is_async: bool,
    /// The number of its parameters.
    pub param_count: usize,
}

/// The three parameters that the attribute knows.
#[derive(Debug, Copy, Clone, PartialEq, Eq, Structural)]
pub enum Param {
    Autostart,
    Peripherals,
    PoolSize,
}

/// The parameter that `name` names, if it names one.
pub open spec fn param_named(name: Seq<char>) -> Option<Param> {
    if name == "autostart"@ {
        Some(Param::Autostart)
    } else if name == "peripherals"@ {
        Some(Param::Peripherals)
    } else if name == "pool_size"@ {
        Some(Param::PoolSize)
    } else {
        None
    }
}

/// The first rule that a task with the parameters `autostart`,
/// `peripherals` and a pool size, if `has_pool_size`, breaks on function
/// `f`, if it breaks one.
pub open spec fn first_broken_rule(
    autostart: bool,
    peripherals: bool,
    has_pool_size: bool,
    f: TaskFunction,
) -> Option<TaskError> {
    if !f.is_async {
        Some(TaskError::NotAsync)
    } else if autostart && has_pool_size {
        Some(TaskError::PoolSizeOnAutostart)
    } else if autostart && !peripherals && f.param_count != 0 {
        Some(TaskError::ParametersWithoutPeripherals)
    } else if !autostart && peripherals {
        Some(TaskError::PeripheralsWithoutAutostart)
    } else {
        None
    }
}

/// Returns the parameter that `name` names, if it names one.
pub fn param_of(name: &str) -> (p: Option<Param>)
    ensures
        p == param_named(name@),
{
    let wanted = name.to_owned();
    if wanted == "autostart".to_owned() {
        Some(Param::Autostart)
    } else if wanted == "peripherals".to_owned() {
        Some(Param::Peripherals)
    } else if wanted == "pool_size".to_owned() {
        Some(Param::PoolSize)
    } else {
        None
    }
}

impl Default for Attributes {
    fn default() -> (a: Attributes)
        ensures
            !a.autostart,
            !a.peripherals,
            a.pool_size.is_none(),
    {
        Attributes { autostart: false, peripherals: false, pool_size: None }
    }
}

impl Attributes {
    /// Reads the parameter `name`, with the value that was written behind
    /// it, if one was.
    ///
    /// `autostart` and `peripherals` are switched on. `pool_size` takes its
    /// value and fails without one. Any other parameter is an error. An
    /// error changes nothing.
    pub fn parse(&mut self, name: &str, value: Option<String>) -> (r: Result<(), ParseError>)
        ensures
            match param_named(name@) {
                Some(Param::Autostart) => r.is_ok() && final(self).autostart && final(self).peripherals == old(self).peripherals && final(self).pool_size == old(self).pool_size,
                Some(Param::Peripherals) => r.is_ok() && final(self).peripherals && final(self).autostart == old(self).autostart && final(self).pool_size == old(self).pool_size,
                Some(Param::PoolSize) => match value {
                    Some(v) => r.is_ok() && final(self).pool_size == Some(v) && final(self).autostart == old(self).autostart && final(self).peripherals == old(self).peripherals,
                    None => r == Err::<(), ParseError>(ParseError::MissingValue) && *final(self)
                        == *old(self),
                },
                None => r == Err::<(), ParseError>(ParseError::UnsupportedParameter) && *final(self) == *old(self),
            },
    {
        match param_of(name) {
            Some(Param::Autostart) => {
                self.autostart = true;
                Ok(())
            },
            Some(Param::Peripherals) => {
                self.peripherals = true;
                Ok(())
            },
            Some(Param::PoolSize) => match value {
                Some(v) => {
                    self.pool_size = Some(v);
                    Ok(())
                },
                None => Err(ParseError::MissingValue),
            },
            None => Err(ParseError::UnsupportedParameter),
        }
    }

    /// Checks the rules that a task has to keep, and reports the first that
    /// is broken: the function is async; a task that starts by itself has
    /// no pool size, and no parameters unless it asks for peripherals; a
    /// task that does not start by itself does not ask for peripherals.
    pub fn check(&self, f: TaskFunction) -> (r: Result<(), TaskError>)
        ensures
            match first_broken_rule(
                self.autostart,
                self.peripherals,
                self.pool_size.is_some(),
                f,
            ) {
                Some(e) => r == Err::<(), TaskError>(e),
                None => r.is_ok(),
            },
    {
        if !f.is_async {
            return Err(TaskError::NotAsync);
        }
        if self.autostart {
            if self.pool_size.is_some() {
                return Err(TaskError::PoolSizeOnAutostart);
            }
            if !self.peripherals {
                if f.param_count != 0 {
                    return Err(TaskError::ParametersWithoutPeripherals);
                }
            }
        } else {
            if self.peripherals {
                return Err(TaskError::PeripheralsWithoutAutostart);
            }
        }
        Ok(())
    }
}

} // verus!
