use vstd::prelude::*;

use crate::dispatch::{cascade, dispatch_event, EventHandler};
use crate::events::{Event, ShellNotice};
use crate::machine::{machine_wf, Machine, MachineView};
use crate::noise::NoiseChannelState;
use crate::nrom::Nrom;

verus! {

/// How deep a cascade of follow-up events may go before the rest is dropped.
pub const MAX_CASCADE_DEPTH: usize = 16;

/// The worker's state as plain values.
pub ghost struct WorkerView {
    pub machine: MachineView,
    pub exit_requested: bool,
    pub notices: Seq<ShellNotice>,
}

/// The worker view is consistent.
pub open spec fn worker_wf(v: WorkerView) -> bool {
    machine_wf(v.machine)
}

/// What the worker's own handling does with `event`: it reports whether
/// there is battery RAM when a cartridge is loaded, forwards setting
/// changes and battery-RAM saves as notices, and latches a close request.
/// Every other event leaves it as it was.
pub open spec fn own_after(v: WorkerView, event: Event) -> WorkerView {
    match event {
        Event::CartridgeLoaded(_) => WorkerView {
            notices: v.notices.push(
                ShellNotice::HasSram(v.machine.mapper.battery && v.machine.mapper.prg_ram.len() > 0),
            ),
            ..v
        },
        Event::SaveSram(name, data) => WorkerView {
            notices: v.notices.push(ShellNotice::WriteSram(name, data)),
            ..v
        },
        Event::CloseApplication => WorkerView { exit_requested: true, ..v },
        Event::ApplyBooleanSetting(path, _) => WorkerView {
            notices: v.notices.push(ShellNotice::SettingsUpdated(path)),
            ..v
        },
        Event::ApplyIntegerSetting(path, _) => WorkerView {
            notices: v.notices.push(ShellNotice::SettingsUpdated(path)),
            ..v
        },
        Event::ApplyStringSetting(path, _) => WorkerView {
            notices: v.notices.push(ShellNotice::SettingsUpdated(path)),
            ..v
        },
        _ => v,
    }
}

/// The owner of the emulated machine: it hands each event to the machine
/// first and then handles it itself, and keeps the close request and the
/// notices for the host.
pub struct Worker {
    machine: Machine,
    exit_requested: bool,
    notices: Vec<ShellNotice>,
}

impl View for Worker {
    type V = WorkerView;

    closed spec fn view(&self) -> WorkerView {
        WorkerView {
            machine: self.machine@,
            exit_requested: self.exit_requested,
            notices: self.notices@,
        }
    }
}

impl EventHandler<Event> for Worker {
    open spec fn handler_wf(state: WorkerView) -> bool {
        worker_wf(state)
    }

    /// The machine's follow-ups; the worker's own handling asks for none.
    open spec fn responses(state: WorkerView, event: Event) -> Seq<Event> {
        <Machine as EventHandler<Event>>::responses(state.machine, event)
    }

    open spec fn after(state: WorkerView, event: Event) -> WorkerView {
        own_after(
            WorkerView {
                machine: <Machine as EventHandler<Event>>::after(state.machine, event),
                ..state
            },
            event,
        )
    }

    fn handle(&mut self, event: Event) -> (r: Vec<Event>) {
        let mut follow = self.machine.react(&event);
        let mut own = self.handle_event(event);
        follow.append(&mut own);
        follow
    }
}

impl Worker {
    /// A worker over a fresh machine, with no close request and no notices.
    pub fn new(mapper: Nrom, noise: NoiseChannelState) -> (r: Worker)
        requires
            mapper.wf(),
            noise.wf(),
        ensures
            worker_wf(r@),
            r@.machine == (MachineView {
                mapper: mapper@,
                noise: noise@,
                scanline: 0,
                samples: Seq::empty(),
            }),
            !r@.exit_requested,
            r@.notices == Seq::<ShellNotice>::empty(),
    {
        Worker { machine: Machine::new(mapper, noise), exit_requested: false, notices: Vec::new() }
    }

    pub open spec fn wf(&self) -> bool {
        worker_wf(self@)
    }

    /// The worker's own handling of `event`. It never asks for follow-ups.
    pub fn handle_event(&mut self, event: Event) -> (r: Vec<Event>)
        requires
            old(self).wf(),
        ensures
            final(self).wf(),
            r@.len() == 0,
            final(self)@ == own_after(old(self)@, event),
            final(self)@.exit_requested == (old(self)@.exit_requested
                || event is CloseApplication),
            final(self)@.machine == old(self)@.machine,
    {
        match event {
            Event::CartridgeLoaded(_) => {
                let has_sram = self.machine.mapper().has_sram();
                self.notices.push(ShellNotice::HasSram(has_sram));
            },
            Event::SaveSram(name, data) => {
                self.notices.push(ShellNotice::WriteSram(name, data));
            },
            Event::CloseApplication => {
                self.exit_requested = true;
            },
            Event::ApplyBooleanSetting(path, _) => {
                self.notices.push(ShellNotice::SettingsUpdated(path));
            },
            Event::ApplyIntegerSetting(path, _) => {
                self.notices.push(ShellNotice::SettingsUpdated(path));
            },
            Event::ApplyStringSetting(path, _) => {
                self.notices.push(ShellNotice::SettingsUpdated(path));
            },
            _ => {},
        }
        Vec::new()
    }

    /// Dispatches `event` and, depth first, every follow-up it leads to.
    /// Returns false when the cascade went deeper than the limit and some
    /// follow-ups were dropped.
    pub fn dispatch_event(&mut self, event: Event) -> (r: bool)
        requires
            old(self).wf(),
        ensures
            final(self).wf(),
            final(self)@ == cascade::<Event, Worker>(
                old(self)@,
                seq![event],
                MAX_CASCADE_DEPTH as nat,
            ).0,
            r == cascade::<Event, Worker>(old(self)@, seq![event], MAX_CASCADE_DEPTH as nat).2,
    {
        dispatch_event(self, event, MAX_CASCADE_DEPTH)
    }

    pub fn exit_requested(&self) -> (r: bool)
        ensures
            r == self@.exit_requested,
    {
        self.exit_requested
    }

    pub fn scanline(&self) -> (r: u16)
        ensures
            r == self@.machine.scanline,
    {
        self.machine.scanline()
    }

    pub fn mapper(&self) -> (r: &Nrom)
        ensures
            r@ == self@.machine.mapper,
    {
        self.machine.mapper()
    }

    pub fn noise(&self) -> (r: &NoiseChannelState)
        ensures
            r@ == self@.machine.noise,
    {
        self.machine.noise()
    }

    /// Hands out the samples made so far, oldest first, and forgets them.
    pub fn take_samples(&mut self) -> (r: Vec<i16>)
        requires
            old(self).wf(),
        ensures
            final(self).wf(),
            r@ == old(self)@.machine.samples,
            final(self)@ == (WorkerView {
                machine: MachineView { samples: Seq::empty(), ..old(self)@.machine },
                ..old(self)@
            }),
    {
        self.machine.take_samples()
    }

    /// Hands out the pending notices, oldest first, and forgets them.
    pub fn take_notices(&mut self) -> (r: Vec<ShellNotice>)
        ensures
            r@ == old(self)@.notices,
            final(self)@ == (WorkerView { notices: Seq::empty(), ..old(self)@ }),
    {
        let mut out: Vec<ShellNotice> = Vec::new();
        std::mem::swap(&mut out, &mut self.notices);
        out
    }
}

} // verus!
