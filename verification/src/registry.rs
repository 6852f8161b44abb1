//! The five entry points of the event subsystem, resolved at run time.

use vstd::prelude::*;
use crate::api::EvtApi;

verus! {

/// The system library that exports the entry points.
pub const MODULE: &'static str = "wevtapi.dll";

/// One of the five operations of the event subsystem.
#[derive(Clone, Copy, Debug, PartialEq, Eq, Structural)]
pub enum Capability {
    Close,
    Next,
    Query,
    Render,
    Subscribe,
}

impl Capability {
    /// The name under which the system library exports the entry point.
    pub open spec fn symbol_text(self) -> Seq<char> {
        match self {
            Capability::Close => "EvtClose"@,
            Capability::Next => "EvtNext"@,
            Capability::Query => "EvtQuery"@,
            Capability::Render => "EvtRender"@,
            Capability::Subscribe => "EvtSubscribe"@,
        }
    }

    /// The capability that a symbol name stands for. The names are tried in
    /// the order close, next, query, render, subscribe.
    pub open spec fn named(name: Seq<char>) -> Option<Capability> {
        if name == "EvtClose"@ {
            Some(Capability::Close)
        } else if name == "EvtNext"@ {
            Some(Capability::Next)
        } else if name == "EvtQuery"@ {
            Some(Capability::Query)
        } else if name == "EvtRender"@ {
            Some(Capability::Render)
        } else if name == "EvtSubscribe"@ {
            Some(Capability::Subscribe)
        } else {
            None
        }
    }

    /// The name under which the system library exports the entry point.
    pub fn symbol(&self) -> (s: &'static str)
        ensures
            s@ == self.symbol_text(),
    {
        match self {
            Capability::Close => "EvtClose",
            Capability::Next => "EvtNext",
            Capability::Query => "EvtQuery",
            Capability::Render => "EvtRender",
            Capability::Subscribe => "EvtSubscribe",
        }
    }

    /// The capability that a symbol name stands for, if it is one of the
    /// five.
    pub fn from_symbol(name: &str) -> (c: Option<Capability>)
        ensures
            c == Capability::named(name@),
    {
        let name = name.to_owned();
        if name == "EvtClose".to_owned() {
            Some(Capability::Close)
        } else if name == "EvtNext".to_owned() {
            Some(Capability::Next)
        } else if name == "EvtQuery".to_owned() {
            Some(Capability::Query)
        } else if name == "EvtRender".to_owned() {
            Some(Capability::Render)
        } else if name == "EvtSubscribe".to_owned() {
            Some(Capability::Subscribe)
        } else {
            None
        }
    }
}

/// Where the resolution of one entry point stands: the request that is
/// out to the host, or the outcome.
#[derive(Clone, Copy, Debug, PartialEq, Eq, Structural)]
pub enum Lookup {
    /// The host is asked for the system library as it is already loaded.
    Module,
    /// The host is asked to load the system library.
    Library,
    /// The host is asked for the symbol in the library with this handle.
    Symbol(usize),
    /// The resolution has ended: the entry point, or absent.
    Done(Option<EvtApi>),
}

/// The entry point that a symbol name and its address make; absent for a
/// name that is none of the five.
pub open spec fn bound(function: Seq<char>, address: usize) -> Option<EvtApi> {
    match Capability::named(function) {
        Some(capability) => Some(EvtApi::at(capability, address)),
        None => None,
    }
}

/// One step of resolving `function`: `raw` is the host's answer to the
/// request that `lookup` stands for, null for a failure.
pub open spec fn advanced(function: Seq<char>, lookup: Lookup, raw: usize) -> Lookup {
    match lookup {
        Lookup::Module => if raw != 0 {
            Lookup::Symbol(raw)
        } else {
            Lookup::Library
        },
        Lookup::Library => if raw != 0 {
            Lookup::Symbol(raw)
        } else {
            Lookup::Done(None)
        },
        Lookup::Symbol(_) => if raw != 0 {
            Lookup::Done(bound(function, raw))
        } else {
            Lookup::Done(None)
        },
        Lookup::Done(outcome) => Lookup::Done(outcome),
    }
}

/// What resolving `function` comes to when the loaded library is `loaded`,
/// loading it gives `fresh`, and the library exports the symbol at `symbol`.
pub open spec fn resolved(function: Seq<char>, loaded: usize, fresh: usize, symbol: usize) -> Option<
    EvtApi,
> {
    if (loaded != 0 || fresh != 0) && symbol != 0 {
        bound(function, symbol)
    } else {
        None
    }
}

/// Resolves an entry point of the system library by name, one answer of the
/// host at a time. The resolution starts at [`Lookup::Module`]; `raw` is the
/// host's answer to the request that `lookup` stands for. A library that is
/// not loaded is loaded once; a library or a symbol that cannot be had ends
/// the resolution with absent, and so does a name that is none of the five.
pub fn try_load_from_dll(function: &str, lookup: Lookup, raw: usize) -> (next: Lookup)
    ensures
        next == advanced(function@, lookup, raw),
{
    match lookup {
        Lookup::Module => if raw != 0 {
            Lookup::Symbol(raw)
        } else {
            Lookup::Library
        },
        Lookup::Library => if raw != 0 {
            Lookup::Symbol(raw)
        } else {
            Lookup::Done(None)
        },
        Lookup::Symbol(_) => if raw != 0 {
            match Capability::from_symbol(function) {
                Some(capability) => Lookup::Done(Some(EvtApi::new(capability, raw))),
                None => Lookup::Done(None),
            }
        } else {
            Lookup::Done(None)
        },
        Lookup::Done(outcome) => Lookup::Done(outcome),
    }
}

/// A resolution ends after three answers at most, and never asks again: the
/// library as it is loaded, else the library freshly loaded, then the symbol.
/// The outcome is the entry point exactly when a library and the symbol were
/// found and the name is one of the five.
pub proof fn lemma_resolution(function: Seq<char>, loaded: usize, fresh: usize, symbol: usize)
    ensures
        loaded != 0 ==> advanced(function, advanced(function, Lookup::Module, loaded), symbol)
            == Lookup::Done(resolved(function, loaded, fresh, symbol)),
        loaded == 0 && fresh == 0 ==> advanced(function, advanced(function, Lookup::Module, loaded), fresh)
            == Lookup::Done(None),
        loaded == 0 && fresh != 0 ==> advanced(
            function,
            advanced(function, advanced(function, Lookup::Module, loaded), fresh),
            symbol,
        ) == Lookup::Done(resolved(function, loaded, fresh, symbol)),
        forall|outcome: Option<EvtApi>, raw: usize|
            advanced(function, Lookup::Done(outcome), raw) == Lookup::Done(outcome),
{
}

/// The entry points that were resolved, each in the slot of its capability.
/// A slot is filled once and keeps what it holds.
#[derive(Debug)]
pub struct Registry {
    close: Option<usize>,
    next: Option<usize>,
    query: Option<usize>,
    render: Option<usize>,
    subscribe: Option<usize>,
}

impl Registry {
    /// The address in the slot of a capability, if it was resolved.
    pub closed spec fn slot(&self, capability: Capability) -> Option<usize> {
        match capability {
            Capability::Close => self.close,
            Capability::Next => self.next,
            Capability::Query => self.query,
            Capability::Render => self.render,
            Capability::Subscribe => self.subscribe,
        }
    }

    /// A registry in which every capability is absent.
    pub fn new() -> (registry: Registry)
        ensures
            forall|c: Capability| registry.slot(c) is None,
    {
        Registry { close: None, next: None, query: None, render: None, subscribe: None }
    }

    /// Records a resolved entry point in the slot of its capability. A slot
    /// that is filled keeps its entry point.
    pub fn install(&mut self, api: EvtApi)
        ensures
            forall|c: Capability|
                final(self).slot(c) == if c == api.spec_capability() && old(self).slot(c) is None {
                    Some(api.spec_entry())
                } else {
                    old(self).slot(c)
                },
    {
        match api {
            EvtApi::Close(a) => if self.close.is_none() {
                self.close = Some(a);
            },
            EvtApi::Next(a) => if self.next.is_none() {
                self.next = Some(a);
            },
            EvtApi::Query(a) => if self.query.is_none() {
                self.query = Some(a);
            },
            EvtApi::Render(a) => if self.render.is_none() {
                self.render = Some(a);
            },
            EvtApi::Subscribe(a) => if self.subscribe.is_none() {
                self.subscribe = Some(a);
            },
        }
    }

    /// The address of the entry point of a capability, if it was resolved.
    pub fn entry(&self, capability: Capability) -> (address: Option<usize>)
        ensures
            address == self.slot(capability),
    {
        match capability {
            Capability::Close => self.close,
            Capability::Next => self.next,
            Capability::Query => self.query,
            Capability::Render => self.render,
            Capability::Subscribe => self.subscribe,
        }
    }

    /// The entry point of a capability, if it was resolved.
    pub fn get(&self, capability: Capability) -> (api: Option<EvtApi>)
        ensures
            api == match self.slot(capability) {
                Some(address) => Some(EvtApi::at(capability, address)),
                None => None,
            },
    {
        match self.entry(capability) {
            Some(address) => Some(EvtApi::new(capability, address)),
            None => None,
        }
    }
}

} // verus!
