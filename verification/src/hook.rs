//! The parameters of the attribute that registers a start-up hook.

use vstd::prelude::*;

verus! {

/// The kinds of hook.
#[derive(Debug, Copy, Clone, PartialEq, Eq, Structural)]
pub enum HookKind {
    /// A hook that is handed the builder of the USB device.
    UsbBuilder,
}

/// What can be wrong with a parameter of the attribute.
#[derive(Debug)]
pub enum HookError {
    /// The parameter names no kind of hook. `supported` holds the names
    /// that do.
    UnsupportedParameter { supported: Vec<&'static str> },
}

/// The parameters of the attribute, as far as they were read.
#[derive(Debug, Copy, Clone, PartialEq, Eq, Structural)]
pub struct HookAttributes {
    /// The kind of hook that was asked for, if any was yet.
    pub kind: Option<HookKind>,
}

impl HookKind {
    /// The name by which the attribute asks for this kind of hook.
    pub open spec fn spec_name(&self) -> Seq<char> {
        match self {
            Self::UsbBuilder => "usb_builder"@,
        }
    }

    /// Returns the name by which the attribute asks for this kind of hook.
    pub fn as_name(&self) -> (name: &'static str)
        ensures
            name@ == self.spec_name(),
    {
        match self {
            Self::UsbBuilder => "usb_builder",
        }
    }

    /// Returns every kind of hook, in the order of declaration.
    pub fn all() -> (kinds: Vec<HookKind>)
        ensures
            kinds@ == seq![HookKind::UsbBuilder],
    {
        let mut kinds: Vec<HookKind> = Vec::new();
        kinds.push(HookKind::UsbBuilder);
        kinds
    }
}

/// The kind of hook that `name` asks for, if it asks for one.
pub open spec fn kind_named(name: Seq<char>) -> Option<HookKind> {
    if name == HookKind::UsbBuilder.spec_name() {
        Some(HookKind::UsbBuilder)
    } else {
        None
    }
}

impl Default for HookAttributes {
    fn default() -> (a: HookAttributes)
        ensures
            a.kind.is_none(),
    {
        HookAttributes { kind: None }
    }
}

impl HookAttributes {
    /// Reads the parameter `name`.
    ///
    /// If `name` asks for a kind of hook, that kind is recorded. None may be
    /// recorded before: only one hook is supported at a time. Any other
    /// parameter is an error, and nothing is recorded.
    pub fn parse(&mut self, name: &str) -> (r: Result<(), HookError>)
        requires
            kind_named(name@).is_some() ==> old(self).kind.is_none(),
        ensures
            match kind_named(name@) {
                Some(kind) => r.is_ok() && final(self).kind == Some(kind),
                None => *final(self) == *old(self) && (r matches Err(
                    HookError::UnsupportedParameter { supported },
                ) && supported@.len() == 1 && supported@[0]@ == HookKind::UsbBuilder.spec_name()),
            },
    {
        let kinds = HookKind::all();
        let wanted = name.to_owned();
        let mut i: usize = 0;
        while i < kinds.len()
            invariant
                i <= kinds@.len(),
                kinds@ == seq![HookKind::UsbBuilder],
                wanted@ == name@,
                *self == *old(self),
                kind_named(name@).is_some() ==> old(self).kind.is_none(),
                forall|j: int| 0 <= j < i ==> (#[trigger] kinds@[j]).spec_name() != name@,
            decreases kinds@.len() - i,
        {
            let kind = kinds[i];
            let hook_name = kind.as_name();
            if hook_name.to_owned() == wanted {
                self.check_only_one_kind(hook_name);
                self.kind = Some(kind);
                return Ok(());
            }
            i += 1;
        }
        proof {
            assert(kinds@[0].spec_name() != name@);
        }
        let mut supported: Vec<&'static str> = Vec::new();
        let mut j: usize = 0;
        while j < kinds.len()
            invariant
                j <= kinds@.len(),
                kinds@ == seq![HookKind::UsbBuilder],
                supported@.len() == j,
                forall|k: int| 0 <= k < j ==> (#[trigger] supported@[k])@ == kinds@[k].spec_name(),
            decreases kinds@.len() - j,
        {
            supported.push(kinds[j].as_name());
            j += 1;
        }
        Err(HookError::UnsupportedParameter { supported })
    }

    /// Checks that the macro is used for only one kind of hook: none may be
    /// recorded when the parameter `param` is read.
    pub fn check_only_one_kind(&self, param: &str)
        requires
            self.kind.is_none(),
    {
    }
}

} // verus!
