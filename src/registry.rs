//! The controllers of all configured devices, each at a stable index.
use vstd::prelude::*;

use crate::button::ButtonId;
use crate::controllers::{
    power_topic, press_command, step, Command, Controller, ControllerView, DisplayState, Label, LABEL_POWER,
};

verus! {

pub struct Registry {
    controllers: Vec<Controller>,
}

impl View for Registry {
    type V = Seq<ControllerView>;

    closed spec fn view(&self) -> Seq<ControllerView> {
        self.controllers@.map_values(|c: Controller| c@)
    }
}

impl Registry {
    pub fn new(controllers: Vec<Controller>) -> (r: Registry)
        ensures
            r@ == controllers@.map_values(|c: Controller| c@),
    {
        Registry { controllers }
    }

    pub fn len(&self) -> (r: usize)
        ensures
            r == self@.len(),
    {
        self.controllers.len()
    }

    /// The transport was lost: every controller goes back to `Unknown`.
    pub fn process_disconnected(&mut self)
        ensures
            final(self)@.len() == old(self)@.len(),
            forall|i: int|
                0 <= i < old(self)@.len() ==> #[trigger] final(self)@[i] == step(old(self)@[i], None),
    {
        let n = self.controllers.len();
        let mut i: usize = 0;
        while i < n
            invariant
                n == old(self)@.len(),
                i <= n,
                self.controllers@.len() == n,
                forall|j: int|
                    0 <= j < n ==> #[trigger] self.controllers@[j]@ == if j < i {
                        step(old(self)@[j], None)
                    } else {
                        old(self)@[j]
                    },
            decreases n - i,
        {
            self.controllers[i].process_disconnected();
            i = i + 1;
        }
        assert forall|j: int|
            0 <= j < old(self)@.len() implies #[trigger] self@[j] == step(old(self)@[j], None) by {
            assert(self@[j] == self.controllers@[j]@);
        }
    }

    /// A datum for the controller at `index`, on its subscription `label`.
    pub fn process_message(&mut self, index: usize, label: Label, data: String)
        requires
            index < old(self)@.len(),
        ensures
            final(self)@ == old(self)@.update(index as int, step(old(self)@[index as int], Some((label, data@)))),
    {
        self.controllers[index].process_message(label, data);
        assert(self@ =~= old(self)@.update(index as int, step(old(self)@[index as int], Some((label, data@)))));
    }

    /// A datum received on `topic`: every controller subscribed to it takes it.
    pub fn process_received(&mut self, topic: &String, payload: &String)
        ensures
            final(self)@.len() == old(self)@.len(),
            forall|i: int|
                0 <= i < old(self)@.len() ==> #[trigger] final(self)@[i] == if power_topic(
                    old(self)@[i].location,
                    old(self)@[i].device,
                ) == topic@ {
                    step(old(self)@[i], Some((LABEL_POWER, payload@)))
                } else {
                    old(self)@[i]
                },
    {
        let n = self.controllers.len();
        let mut i: usize = 0;
        while i < n
            invariant
                n == old(self)@.len(),
                i <= n,
                self.controllers@.len() == n,
                forall|j: int|
                    0 <= j < n ==> #[trigger] self.controllers@[j]@ == if j < i && power_topic(
                        old(self)@[j].location,
                        old(self)@[j].device,
                    ) == topic@ {
                        step(old(self)@[j], Some((LABEL_POWER, payload@)))
                    } else {
                        old(self)@[j]
                    },
            decreases n - i,
        {
            let subscriptions = self.controllers[i].get_subscriptions();
            if subscriptions[0].topic == *topic {
                self.controllers[i].process_message(subscriptions[0].label, payload.clone());
            }
            i = i + 1;
        }
        assert forall|j: int| 0 <= j < old(self)@.len() implies #[trigger] self@[j] == (if power_topic(
            old(self)@[j].location,
            old(self)@[j].device,
        ) == topic@ {
            step(old(self)@[j], Some((LABEL_POWER, payload@)))
        } else {
            old(self)@[j]
        }) by {
            assert(self@[j] == self.controllers@[j]@);
        }
    }

    pub fn get_display_state(&self, index: usize) -> (r: DisplayState)
        requires
            index < self@.len(),
        ensures
            r == self@[index as int].state,
    {
        self.controllers[index].get_display_state()
    }

    pub fn get_press_commands(&self, index: usize) -> (r: Vec<Command>)
        requires
            index < self@.len(),
        ensures
            r@.len() == 1,
            r@[0]@ == press_command(self@[index as int]),
    {
        self.controllers[index].get_press_commands()
    }

    /// The index of the controller that the input `id` drives, if any.
    pub open spec fn driven_by(&self, id: ButtonId) -> Option<int> {
        match id {
            ButtonId::Physical(n) => if n < self@.len() { Some(n as int) } else { None },
            ButtonId::Controller(n) => if n < self@.len() { Some(n as int) } else { None },
            _ => None,
        }
    }

    /// The commands that a press of `id` sends: those of the controller it
    /// drives, none where it drives none.
    pub fn commands_for_press(&self, id: ButtonId) -> (r: Vec<Command>)
        ensures
            match self.driven_by(id) {
                Some(i) => r@.len() == 1 && r@[0]@ == press_command(self@[i]),
                None => r@.len() == 0,
            },
    {
        let n: u32 = match id {
            ButtonId::Physical(n) => n,
            ButtonId::Controller(n) => n,
            _ => return Vec::new(),
        };
        if (n as usize) < self.controllers.len() {
            self.controllers[n as usize].get_press_commands()
        } else {
            Vec::new()
        }
    }
}

} // verus!
