use vstd::prelude::*;

use crate::dispatch::EventHandler;

verus! {

/// A handler whose follow-ups come from a fixed table, and which records the
/// order in which events reach it. Event `i` asks for the events listed at
/// index `i`; an event past the table asks for none.
pub struct ScriptedHandler {
    follow_ups: Vec<Vec<u32>>,
    log: Vec<u32>,
}

pub ghost struct ScriptedView {
    pub table: Seq<Seq<u32>>,
    pub log: Seq<u32>,
}

impl View for ScriptedHandler {
    type V = ScriptedView;

    closed spec fn view(&self) -> ScriptedView {
        ScriptedView { table: self.follow_ups@.map_values(|v: Vec<u32>| v@), log: self.log@ }
    }
}

impl ScriptedHandler {
    pub fn new(follow_ups: Vec<Vec<u32>>) -> (r: ScriptedHandler)
        ensures
            r@.table == follow_ups@.map_values(|v: Vec<u32>| v@),
            r@.log == Seq::<u32>::empty(),
    {
        ScriptedHandler { follow_ups, log: Vec::new() }
    }

    /// The events handled so far, in order.
    pub fn log(&self) -> (r: Vec<u32>)
        ensures
            r@ == self@.log,
    {
        self.log.clone()
    }
}

impl EventHandler<u32> for ScriptedHandler {
    open spec fn handler_wf(state: ScriptedView) -> bool {
        true
    }

    open spec fn responses(state: ScriptedView, event: u32) -> Seq<u32> {
        if event < state.table.len() {
            state.table[event as int]
        } else {
            Seq::empty()
        }
    }

    open spec fn after(state: ScriptedView, event: u32) -> ScriptedView {
        ScriptedView { log: state.log.push(event), ..state }
    }

    fn handle(&mut self, event: u32) -> (r: Vec<u32>) {
        self.log.push(event);
        let index = event as usize;
        if index < self.follow_ups.len() {
            let row = &self.follow_ups[index];
            let mut out: Vec<u32> = Vec::new();
            let mut i: usize = 0;
            while i < row.len()
                invariant
                    i <= row@.len(),
                    out@ == row@.subrange(0, i as int),
                decreases row@.len() - i,
            {
                out.push(row[i]);
                i = i + 1;
            }
            assert(out@ =~= row@);
            out
        } else {
            Vec::new()
        }
    }
}

} // verus!
