use vstd::prelude::*;

use crate::commands::{Command, ControlCommand};
use crate::lights::{all_set_topics, json_payload, selection_topics, Select, SET_TOPICS};

verus! {

/// How many lights there are to select from.
pub const LIGHT_COUNT: usize = 4;

/// The light selected after `command`, when light `index` was selected.
pub open spec fn next_index(index: nat, command: ControlCommand) -> nat {
    match command {
        ControlCommand::CycleLeft => ((index + LIGHT_COUNT - 1) % (LIGHT_COUNT as int)) as nat,
        ControlCommand::CycleRight => ((index + LIGHT_COUNT + 1) % (LIGHT_COUNT as int)) as nat,
    }
}

/// The topics a light command is published on when light `index` is selected:
/// the ones its selection names, or the selected light's topic for `Current`,
/// or none.
pub open spec fn command_topics(index: nat, command: crate::lights::LightCommand) -> Seq<Seq<char>> {
    match selection_topics(command.target_light) {
        Some(topics) => topics,
        None => match command.target_light {
            Select::Current => seq![all_set_topics()[index as int]],
            _ => Seq::empty(),
        },
    }
}

/// The (topic, payload) pairs published for `command` when light `index` is
/// selected.
pub open spec fn publications_for(index: nat, command: Command) -> Seq<(Seq<char>, Seq<char>)> {
    match command {
        Command::Light(light_command) => command_topics(index, light_command).map_values(
            |topic: Seq<char>| (topic, json_payload(light_command.target_state)),
        ),
        _ => Seq::empty(),
    }
}

/// The light selected after `command`, when light `index` was selected.
pub open spec fn index_after(index: nat, command: Command) -> nat {
    match command {
        Command::Control(control) => next_index(index, control),
        _ => index,
    }
}

/// A message to publish: a payload and the topic it goes to.
#[derive(Debug, Clone)]
pub struct Publication {
    pub topic: String,
    pub payload: String,
}

/// The view of a publication as its topic and payload.
pub open spec fn publication_view(publication: Publication) -> (Seq<char>, Seq<char>) {
    (publication.topic@, publication.payload@)
}

/// Which light is selected: the state of the light publisher.
pub struct LightController {
    current_light_idx: usize,
}

impl LightController {
    #[verifier::type_invariant]
    spec fn index_in_range(&self) -> bool {
        self.current_light_idx < LIGHT_COUNT
    }

    /// The index of the selected light in `SET_TOPICS`.
    pub closed spec fn selected(&self) -> nat {
        self.current_light_idx as nat
    }

    /// The index of the selected light; always one of the four.
    pub fn selected_index(&self) -> (index: usize)
        ensures
            index == self.selected(),
            index < LIGHT_COUNT,
    {
        proof {
            use_type_invariant(self);
        }
        self.current_light_idx
    }

    /// A controller with the first light (the main light) selected.
    pub fn new() -> (controller: LightController)
        ensures
            controller.selected() == 0,
    {
        LightController { current_light_idx: 0 }
    }

    /// The set topic of the selected light.
    pub fn current_topic(&self) -> (topic: String)
        ensures
            topic@ == all_set_topics()[self.selected() as int],
    {
        proof {
            use_type_invariant(self);
        }
        String::from_str(SET_TOPICS[self.current_light_idx])
    }

    /// Selects the light to the left or to the right, wrapping around.
    pub fn cycle(&mut self, command: ControlCommand)
        ensures
            final(self).selected() == next_index(old(self).selected(), command),
            final(self).selected() < LIGHT_COUNT,
            command == ControlCommand::CycleLeft ==> final(self).selected() == if old(
                self,
            ).selected() == 0 {
                3
            } else {
                old(self).selected() - 1
            },
            command == ControlCommand::CycleRight ==> final(self).selected() == if old(
                self,
            ).selected() == 3 {
                0
            } else {
                old(self).selected() + 1
            },
    {
        proof {
            use_type_invariant(&*self);
        }
        let topic_count = LIGHT_COUNT;
        match command {
            ControlCommand::CycleLeft => {
                self.current_light_idx = (self.current_light_idx + topic_count - 1) % topic_count;
            },
            ControlCommand::CycleRight => {
                self.current_light_idx = (self.current_light_idx + topic_count + 1) % topic_count;
            },
        }
    }

    /// Carries out one command: a light command yields the messages to publish,
    /// a control command changes the selected light, others do nothing.
    pub fn handle(&mut self, command: Command) -> (publications: Vec<Publication>)
        ensures
            publications@.map_values(|p: Publication| publication_view(p)) == publications_for(
                old(self).selected(),
                command,
            ),
            final(self).selected() == index_after(old(self).selected(), command),
            final(self).selected() < LIGHT_COUNT,
            command matches Command::Control(c) ==> final(self).selected() == next_index(
                old(self).selected(),
                c,
            ),
            !(command is Control) ==> final(self).selected() == old(self).selected(),
            !(command is Light) ==> publications@.len() == 0,
    {
        proof {
            use_type_invariant(&*self);
        }
        match command {
            Command::Light(light_command) => {
                let payload = light_command.as_json();
                let topics = match light_command.topics() {
                    Some(light_topics) => light_topics.into_vec(),
                    None => {
                        let mut current: Vec<String> = Vec::new();
                        match light_command.target_light {
                            Select::Current => {
                                current.push(self.current_topic());
                            },
                            _ => {},
                        }
                        current
                    },
                };
                let ghost index = self.selected();
                assert(topics.deep_view() == command_topics(index, light_command));
                let mut publications: Vec<Publication> = Vec::new();
                let mut i: usize = 0;
                while i < topics.len()
                    invariant
                        i <= topics.len(),
                        payload@ == json_payload(light_command.target_state),
                        topics.deep_view() == command_topics(index, light_command),
                        publications@.map_values(|p: Publication| publication_view(p))
                            == publications_for(index, command).take(i as int),
                        command == Command::Light(light_command),
                    decreases topics.len() - i,
                {
                    let publication = Publication {
                        topic: topics[i].clone(),
                        payload: payload.clone(),
                    };
                    let ghost before = publications@;
                    publications.push(publication);
                    proof {
                        let all = publications_for(index, command);
                        assert(topics.deep_view()[i as int] == topics@[i as int]@);
                        assert(publication_view(publication) == all[i as int]);
                        assert(publications@ == before.push(publication));
                        let mapped = publications@.map_values(|p: Publication| publication_view(p));
                        let mapped_before = before.map_values(|p: Publication| publication_view(p));
                        assert(mapped_before.len() == i);
                        assert(before.len() == i);
                        assert forall|j: int| 0 <= j < i implies mapped[j] == all[j] by {
                            assert(publications@[j] == before[j]);
                            assert(mapped_before[j] == all.take(i as int)[j]);
                        }
                        assert(mapped =~= all.take(i + 1));
                    }
                    i = i + 1;
                }
                proof {
                    assert(publications_for(index, command).take(i as int) =~= publications_for(index, command));
                }
                publications
            },
            Command::Control(control_command) => {
                self.cycle(control_command);
                Vec::new()
            },
            _ => Vec::new(),
        }
    }
}

} // verus!
