//! The mixer: the pipeline container, the shared audio mix and video
//! compositor, and the registries of attached sources and destinations.
//! These are the operations external callers drive; each one either fully
//! succeeds or fully fails with one typed error, leaving the registries
//! unchanged on failure.

use crate::config::{Config, PlayState, VideoConfig};
use crate::input::{input_node_seq, linked_zorder, Input};
use crate::output::{Branch, Output};
use crate::pad::{PadProperty, PeerPad};
use crate::pipeline::{lemma_filter_retains_all, node_owned, not_owned_pred, without_owned,
    NodeId, OwnerKind, Pipeline};
use vstd::seq_lib::*;
use crate::Error;
use vstd::prelude::*;

verus! {

/// The orchestrator: one container, one shared mix per media kind, and the
/// name-keyed registries of everything attached to them.
pub struct Mixer {
    pub pipeline: Pipeline,
    pub inputs: Vec<Input>,
    pub outputs: Vec<Output>,
}

impl Mixer {
    /// A source under `name` is registered.
    pub open spec fn has_input(self, name: Seq<char>) -> bool {
        exists|i: int| 0 <= i < self.inputs@.len() && self.inputs@[i].name@ == name
    }

    /// A destination under `name` is registered.
    pub open spec fn has_output(self, name: Seq<char>) -> bool {
        exists|i: int|
            0 <= i < self.outputs@.len() && self.outputs@[i].branch().name@ == name
    }

    /// The registry index of the source named `name` (unique while `wf`).
    pub open spec fn the_input_index(self, name: Seq<char>) -> int {
        choose|i: int| 0 <= i < self.inputs@.len() && self.inputs@[i].name@ == name
    }

    /// The registry index of the destination named `name`.
    pub open spec fn the_output_index(self, name: Seq<char>) -> int {
        choose|i: int| 0 <= i < self.outputs@.len() && self.outputs@[i].branch().name@ == name
    }

    /// Every node in the container is accounted for: a source-owned node
    /// belongs to a registered source, a destination-owned node to a
    /// registered destination — nothing orphaned ever stands in the graph.
    pub open spec fn nodes_accounted(self) -> bool {
        forall|k: int|
            0 <= k < self.pipeline.nodes@.len() ==> {
                let n = #[trigger] self.pipeline.nodes@[k];
                &&& (n.kind == OwnerKind::Input ==> self.has_input(n.owner@))
                &&& (n.kind == OwnerKind::Output ==> self.has_output(n.owner@))
            }
    }

    /// The registries' invariant: names unique on each side, everything
    /// registered linked into the container, and no node in the container
    /// without a registered owner.
    pub open spec fn wf(self) -> bool {
        &&& forall|i: int, j: int|
            0 <= i < j < self.inputs@.len() ==> (#[trigger] self.inputs@[i]).name@ != (
            #[trigger] self.inputs@[j]).name@
        &&& forall|i: int, j: int|
            0 <= i < j < self.outputs@.len() ==> (#[trigger] self.outputs@[i]).branch().name@
                != (#[trigger] self.outputs@[j]).branch().name@
        &&& forall|i: int|
            0 <= i < self.inputs@.len() ==> (#[trigger] self.inputs@[i]).linked
        &&& forall|i: int|
            0 <= i < self.outputs@.len() ==> (#[trigger] self.outputs@[i]).branch().linked
        &&& self.nodes_accounted()
    }

    /// An empty mixer: fresh container in `Null`, nothing registered.
    pub fn new() -> (r: Mixer)
        ensures
            r.wf(),
            r.inputs@ == Seq::<Input>::empty(),
            r.outputs@ == Seq::<Output>::empty(),
            r.pipeline.nodes@.len() == 0,
            r.pipeline.state == PlayState::Null,
    {
        Mixer { pipeline: Pipeline::empty(), inputs: Vec::new(), outputs: Vec::new() }
    }

    /// Finds the registry index of the source named `name`.
    fn find_input_idx(&self, name: &String) -> (r: Option<usize>)
        ensures
            match r {
                Some(i) => i < self.inputs@.len() && self.inputs@[i as int].name@ == name@,
                None => !self.has_input(name@),
            },
    {
        let mut i: usize = 0;
        while i < self.inputs.len()
            invariant
                i <= self.inputs@.len(),
                forall|j: int| 0 <= j < i ==> (#[trigger] self.inputs@[j]).name@ != name@,
            decreases self.inputs@.len() - i,
        {
            if self.inputs[i].name == *name {
                return Some(i);
            }
            i = i + 1;
        }
        None
    }

    /// Finds the registry index of the destination named `name`.
    fn find_output_idx(&self, name: &String) -> (r: Option<usize>)
        ensures
            match r {
                Some(i) => i < self.outputs@.len() && self.outputs@[i as int].branch().name@
                    == name@,
                None => !self.has_output(name@),
            },
    {
        let mut i: usize = 0;
        while i < self.outputs.len()
            invariant
                i <= self.outputs@.len(),
                forall|j: int|
                    0 <= j < i ==> (#[trigger] self.outputs@[j]).branch().name@ != name@,
            decreases self.outputs@.len() - i,
        {
            let same = match &self.outputs[i] {
                Output::RTMP(b) => b.name == *name,
                Output::Auto(b) => b.name == *name,
                Output::Fake(b) => b.name == *name,
                Output::File(b) => b.name == *name,
            };
            if same {
                return Some(i);
            }
            i = i + 1;
        }
        None
    }

    /// Constructs a source from its record and locator, links it into the
    /// container and the shared mix, and registers it. `assigned_zorder` is
    /// the zorder read back from the compositor connection the link
    /// requested; it becomes the stored zorder when the record asked for
    /// none. A name already registered is refused, changing nothing: the
    /// registry's keys are unique.
    pub fn add_input(
        &mut self,
        config: Config,
        uri: &str,
        timestamp: u64,
        assigned_zorder: u32,
    ) -> (r: Result<(), Error>)
        requires
            old(self).wf(),
        ensures
            final(self).wf(),
            r is Ok <==> !old(self).has_input(config.name@),
            r is Err ==> *final(self) == *old(self) && r == Err::<(), Error>(Error::Graph),
            r is Ok ==> {
                &&& final(self).outputs@ == old(self).outputs@
                &&& final(self).pipeline.state == old(self).pipeline.state
                &&& final(self).inputs@.len() == old(self).inputs@.len() + 1
                &&& final(self).inputs@.subrange(0, old(self).inputs@.len() as int) == old(self).inputs@
                &&& final(self).has_input(config.name@)
                &&& ({
                    let i = final(self).inputs@.last();
                    let z = linked_zorder(config.video.zorder, assigned_zorder);
                    &&& i.name@ == config.name@
                    &&& i.location@ == uri@
                    &&& i.linked
                    &&& i.state == old(self).pipeline.state
                    &&& i.config == (Config {
                        video: VideoConfig { zorder: Some(z), ..config.video },
                        ..config
                    })
                    &&& i.video_peer == Some(PeerPad::fresh_spec(z))
                    // the read-back invariant: the stored zorder is the one
                    // the compositor connection actually carries
                    &&& i.config.video.zorder == Some(i.video_peer.unwrap().zorder)
                    &&& i.audio_attach is None
                    &&& i.video_attach is None
                    &&& (config.record ==> i.record_config_matches(config, timestamp))
                    &&& (!config.record ==> i.record is None)
                    &&& final(self).pipeline.nodes@ == old(self).pipeline.nodes@
                        + input_node_seq(i.name, config.record)
                })
            },
    {
        if self.find_input_idx(&config.name).is_some() {
            return Err(Error::Graph);
        }
        let ghost pre = *self;
        let has_record = config.record;
        let mut input = match Input::create(config, uri, timestamp) {
            Ok(i) => i,
            Err(e) => {
                return Err(e);
            },
        };
        let link_res = input.link(&mut self.pipeline, assigned_zorder);
        match link_res {
            Ok(()) => {},
            Err(e) => {
                return Err(e);
            },
        }
        self.inputs.push(input);
        proof {
            assert(self.inputs@.subrange(0, pre.inputs@.len() as int) =~= pre.inputs@);
            assert(self.inputs@.last().record is Some <==> has_record);
            lemma_accounted_add_input(pre, *self, self.inputs@.last(), has_record);
        }
        Ok(())
    }

    /// Unlinks the source named `name` — releasing its connection points
    /// and removing every node it owns, recording branch included — and
    /// drops it from the registry. An unknown name is refused, changing
    /// nothing.
    pub fn remove_input(&mut self, name: &String) -> (r: Result<(), Error>)
        requires
            old(self).wf(),
        ensures
            final(self).wf(),
            r is Ok <==> old(self).has_input(name@),
            !old(self).has_input(name@) ==> r == Err::<(), Error>(Error::NotFound) && *final(self) == *old(self),
            r is Ok ==> {
                &&& final(self).inputs@ == old(self).inputs@.remove(
                    old(self).the_input_index(name@),
                )
                &&& !final(self).has_input(name@)
                &&& final(self).outputs@ == old(self).outputs@
                &&& final(self).pipeline.nodes@ == without_owned(
                    old(self).pipeline.nodes@,
                    OwnerKind::Input,
                    name@,
                )
                &&& final(self).pipeline.state == old(self).pipeline.state
            },
    {
        let idx = match self.find_input_idx(name) {
            Some(i) => i,
            None => {
                return Err(Error::NotFound);
            },
        };
        let ghost pre = *self;
        let mut input = self.inputs.remove(idx);
        let unlink_res = input.unlink(&mut self.pipeline);
        match unlink_res {
            Ok(()) => {},
            Err(e) => {
                return Err(e);
            },
        }
        proof {
            assert(pre.the_input_index(name@) == idx);
            assert forall|j: int| 0 <= j < self.inputs@.len() implies (
            #[trigger] self.inputs@[j]).name@ != name@ by {
                if j < idx {
                    assert(self.inputs@[j] == pre.inputs@[j]);
                } else {
                    assert(self.inputs@[j] == pre.inputs@[j + 1]);
                }
            }
            lemma_accounted_remove_input(pre, *self, idx as int, name@);
        }
        Ok(())
    }

    /// Constructs nothing itself: takes a freshly created destination,
    /// links it as a new branch off each shared tee, and registers it.
    /// A name already registered is refused, changing nothing.
    pub fn add_output(&mut self, output: Output) -> (r: Result<(), Error>)
        requires
            old(self).wf(),
            !output.branch().linked,
        ensures
            final(self).wf(),
            r is Ok <==> !old(self).has_output(output.branch().name@),
            r is Err ==> *final(self) == *old(self) && r == Err::<(), Error>(Error::Graph),
            r is Ok ==> {
                &&& final(self).inputs@ == old(self).inputs@
                &&& final(self).pipeline.state == old(self).pipeline.state
                &&& final(self).outputs@ == old(self).outputs@.push(
                    output.with_branch(
                        Branch {
                            linked: true,
                            state: old(self).pipeline.state,
                            audio_tee_peer: Some(PeerPad::fresh_spec(0)),
                            video_tee_peer: Some(PeerPad::fresh_spec(0)),
                            ..output.branch()
                        },
                    ),
                )
                &&& final(self).pipeline.nodes@ == old(self).pipeline.nodes@ + output.node_seq()
                &&& final(self).has_output(output.branch().name@)
            },
    {
        let name = output.name();
        if self.find_output_idx(&name).is_some() {
            return Err(Error::Graph);
        }
        let ghost pre = *self;
        let mut out = output;
        let link_res = out.link(&mut self.pipeline);
        match link_res {
            Ok(()) => {},
            Err(e) => {
                return Err(e);
            },
        }
        self.outputs.push(out);
        proof {
            let n = self.outputs@.len() - 1;
            assert(self.outputs@[n].branch().name@ == output.branch().name@);
            assert(self.has_output(output.branch().name@));
            assert(self.outputs@[n].node_seq() == output.node_seq());
            lemma_accounted_add_output(pre, *self, self.outputs@[n]);
        }
        Ok(())
    }

    /// Unlinks the destination named `name` — releasing its two tee-branch
    /// pads and removing its nodes — and drops it from the registry. The
    /// shared tees keep feeding every other destination: nothing of theirs
    /// is touched. An unknown name is refused, changing nothing.
    pub fn remove_output(&mut self, name: &String) -> (r: Result<(), Error>)
        requires
            old(self).wf(),
        ensures
            final(self).wf(),
            r is Ok <==> old(self).has_output(name@),
            !old(self).has_output(name@) ==> r == Err::<(), Error>(Error::NotFound) && *final(self) == *old(self),
            r is Ok ==> {
                &&& final(self).outputs@ == old(self).outputs@.remove(
                    old(self).the_output_index(name@),
                )
                &&& !final(self).has_output(name@)
                &&& final(self).inputs@ == old(self).inputs@
                &&& final(self).pipeline.nodes@ == without_owned(
                    old(self).pipeline.nodes@,
                    OwnerKind::Output,
                    name@,
                )
                &&& final(self).pipeline.state == old(self).pipeline.state
            },
    {
        let idx = match self.find_output_idx(name) {
            Some(i) => i,
            None => {
                return Err(Error::NotFound);
            },
        };
        let ghost pre = *self;
        let mut output = self.outputs.remove(idx);
        let unlink_res = output.unlink(&mut self.pipeline);
        match unlink_res {
            Ok(()) => {},
            Err(e) => {
                return Err(e);
            },
        }
        proof {
            assert(pre.the_output_index(name@) == idx);
            assert forall|j: int| 0 <= j < self.outputs@.len() implies (
            #[trigger] self.outputs@[j]).branch().name@ != name@ by {
                if j < idx {
                    assert(self.outputs@[j] == pre.outputs@[j]);
                } else {
                    assert(self.outputs@[j] == pre.outputs@[j + 1]);
                }
            }
            lemma_accounted_remove_output(pre, *self, idx as int, name@);
        }
        Ok(())
    }

    /// Requests a playback-state transition of the container. The engine
    /// applies container-level transitions transitively to every linked
    /// child, so each registered source and destination follows.
    pub fn set_state(&mut self, state: PlayState) -> (r: Result<(), Error>)
        requires
            old(self).wf(),
        ensures
            final(self).wf(),
            r is Ok,
            final(self).pipeline.nodes@ == old(self).pipeline.nodes@,
            final(self).pipeline.state == state,
            final(self).inputs@.len() == old(self).inputs@.len(),
            forall|k: int|
                0 <= k < old(self).inputs@.len() ==> final(self).inputs@[k] == (Input {
                    state,
                    ..old(self).inputs@[k]
                }),
            final(self).outputs@.len() == old(self).outputs@.len(),
            forall|k: int|
                0 <= k < old(self).outputs@.len() ==> final(self).outputs@[k] == old(self).outputs@[k].with_state(state),
    {
        self.pipeline.set_state(state);
        let ghost orig_inputs = self.inputs@;
        let ghost orig_outputs = self.outputs@;
        let ghost orig_nodes = self.pipeline.nodes@;
        let mut i: usize = 0;
        while i < self.inputs.len()
            invariant
                i <= orig_inputs.len(),
                self.inputs@.len() == orig_inputs.len(),
                forall|k: int|
                    0 <= k < i ==> self.inputs@[k] == (Input { state, ..orig_inputs[k] }),
                forall|k: int| i <= k < orig_inputs.len() ==> self.inputs@[k] == orig_inputs[k],
                self.outputs@ == orig_outputs,
                self.pipeline.nodes@ == orig_nodes,
                self.pipeline.state == state,
            decreases orig_inputs.len() - i,
        {
            let _ = self.inputs[i].set_state(state);
            i = i + 1;
        }
        let mut j: usize = 0;
        while j < self.outputs.len()
            invariant
                j <= orig_outputs.len(),
                self.outputs@.len() == orig_outputs.len(),
                forall|k: int|
                    0 <= k < j ==> self.outputs@[k] == orig_outputs[k].with_state(state),
                forall|k: int|
                    j <= k < orig_outputs.len() ==> self.outputs@[k] == orig_outputs[k]
                        && orig_outputs[k].branch().linked,
                self.inputs@.len() == orig_inputs.len(),
                forall|k: int|
                    0 <= k < orig_inputs.len() ==> self.inputs@[k] == (Input {
                        state,
                        ..orig_inputs[k]
                    }),
                self.pipeline.nodes@ == orig_nodes,
                self.pipeline.state == state,
            decreases orig_outputs.len() - j,
        {
            let _ = self.outputs[j].set_state(state);
            j = j + 1;
        }
        proof {
            lemma_accounted_same_names(*old(self), *self);
        }
        Ok(())
    }

    /// Looks up the source named `name` and hands back its stored record.
    pub fn input_config(&self, name: &String) -> (r: Result<Config, Error>)
        requires
            self.wf(),
        ensures
            r is Ok <==> self.has_input(name@),
            !self.has_input(name@) ==> r == Err::<Config, Error>(Error::NotFound),
            r matches Ok(c) ==> c == self.inputs@[self.the_input_index(name@)].config,
    {
        match self.find_input_idx(name) {
            Some(idx) => {
                let c = self.inputs[idx].config();
                proof {
                    assert(self.the_input_index(name@) == idx);
                }
                Ok(c)
            },
            None => Err(Error::NotFound),
        }
    }

    /// Looks up the source named `name` and hands back its compositor-side
    /// connection as the core tracks it — the read-back view of the live
    /// graph.
    pub fn input_video_peer(&self, name: &String) -> (r: Result<Option<PeerPad>, Error>)
        requires
            self.wf(),
        ensures
            r is Ok <==> self.has_input(name@),
            !self.has_input(name@) ==> r == Err::<Option<PeerPad>, Error>(Error::NotFound),
            r matches Ok(p) ==> p == self.inputs@[self.the_input_index(name@)].video_peer,
    {
        match self.find_input_idx(name) {
            Some(idx) => {
                let p = self.inputs[idx].video_peer;
                proof {
                    assert(self.the_input_index(name@) == idx);
                }
                Ok(p)
            },
            None => Err(Error::NotFound),
        }
    }

    /// The shared step behind the per-source placement setters: look the
    /// source up by name, delegate, and hand its result back.
    fn set_input_prop(&mut self, name: &String, prop: PadProperty, update_config: bool) -> (r:
        Result<(), Error>)
        requires
            old(self).wf(),
        ensures
            final(self).wf(),
            !old(self).has_input(name@) ==> r == Err::<(), Error>(Error::NotFound) && *final(self) == *old(self),
            old(self).has_input(name@) ==> ({
                let idx = old(self).the_input_index(name@);
                &&& final(self).inputs@ == old(self).inputs@.update(
                    idx,
                    old(self).inputs@[idx].prop_set(prop, update_config),
                )
                &&& final(self).outputs@ == old(self).outputs@
                &&& final(self).pipeline == old(self).pipeline
                &&& (r is Ok <==> old(self).inputs@[idx].video_peer is Some)
                &&& (old(self).inputs@[idx].video_peer is None ==> r == Err::<(), Error>(
                    Error::Graph,
                ))
            }),
    {
        let idx = match self.find_input_idx(name) {
            Some(i) => i,
            None => {
                return Err(Error::NotFound);
            },
        };
        let ghost pre = *self;
        let r = self.inputs[idx].apply_prop(prop, update_config);
        proof {
            assert(pre.the_input_index(name@) == idx);
            assert forall|a: int, b: int|
                0 <= a < b < self.inputs@.len() implies (#[trigger] self.inputs@[a]).name@ != (
            #[trigger] self.inputs@[b]).name@ by {
                assert(self.inputs@[a].name@ == pre.inputs@[a].name@);
                assert(self.inputs@[b].name@ == pre.inputs@[b].name@);
            }
            lemma_accounted_same_names(pre, *self);
        }
        r
    }

    /// Looks the source up by name and sets its audio level.
    pub fn set_input_volume(&mut self, name: &String, volume: u32, update_config: bool) -> (r:
        Result<(), Error>)
        requires
            old(self).wf(),
        ensures
            final(self).wf(),
            !old(self).has_input(name@) ==> r == Err::<(), Error>(Error::NotFound) && *final(self) == *old(self),
            old(self).has_input(name@) ==> ({
                let idx = old(self).the_input_index(name@);
                &&& r is Ok
                &&& final(self).inputs@ == old(self).inputs@.update(
                    idx,
                    old(self).inputs@[idx].volume_set(volume, update_config),
                )
                &&& final(self).outputs@ == old(self).outputs@
                &&& final(self).pipeline == old(self).pipeline
            }),
    {
        let idx = match self.find_input_idx(name) {
            Some(i) => i,
            None => {
                return Err(Error::NotFound);
            },
        };
        let ghost pre = *self;
        let r = self.inputs[idx].set_volume(volume, update_config);
        proof {
            assert(pre.the_input_index(name@) == idx);
            assert forall|a: int, b: int|
                0 <= a < b < self.inputs@.len() implies (#[trigger] self.inputs@[a]).name@ != (
            #[trigger] self.inputs@[b]).name@ by {
                assert(self.inputs@[a].name@ == pre.inputs@[a].name@);
                assert(self.inputs@[b].name@ == pre.inputs@[b].name@);
            }
            lemma_accounted_same_names(pre, *self);
        }
        r
    }

    /// Looks the source up by name and sets its compositor layering order.
    pub fn set_input_zorder(&mut self, name: &String, zorder: u32, update_config: bool) -> (r:
        Result<(), Error>)
        requires
            old(self).wf(),
        ensures
            final(self).wf(),
            !old(self).has_input(name@) ==> r == Err::<(), Error>(Error::NotFound) && *final(self) == *old(self),
            old(self).has_input(name@) ==> ({
                let idx = old(self).the_input_index(name@);
                &&& final(self).inputs@ == old(self).inputs@.update(
                    idx,
                    old(self).inputs@[idx].prop_set(PadProperty::Zorder(zorder), update_config),
                )
                &&& final(self).outputs@ == old(self).outputs@
                &&& final(self).pipeline == old(self).pipeline
                &&& (r is Ok <==> old(self).inputs@[idx].video_peer is Some)
            }),
    {
        self.set_input_prop(name, PadProperty::Zorder(zorder), update_config)
    }

    /// Looks the source up by name and sets its target width.
    pub fn set_input_width(&mut self, name: &String, width: i32, update_config: bool) -> (r:
        Result<(), Error>)
        requires
            old(self).wf(),
        ensures
            final(self).wf(),
            !old(self).has_input(name@) ==> r == Err::<(), Error>(Error::NotFound) && *final(self) == *old(self),
            old(self).has_input(name@) ==> ({
                let idx = old(self).the_input_index(name@);
                &&& final(self).inputs@ == old(self).inputs@.update(
                    idx,
                    old(self).inputs@[idx].prop_set(PadProperty::Width(width), update_config),
                )
                &&& final(self).outputs@ == old(self).outputs@
                &&& final(self).pipeline == old(self).pipeline
                &&& (r is Ok <==> old(self).inputs@[idx].video_peer is Some)
            }),
    {
        self.set_input_prop(name, PadProperty::Width(width), update_config)
    }

    /// Looks the source up by name and sets its target height.
    pub fn set_input_height(&mut self, name: &String, height: i32, update_config: bool) -> (r:
        Result<(), Error>)
        requires
            old(self).wf(),
        ensures
            final(self).wf(),
            !old(self).has_input(name@) ==> r == Err::<(), Error>(Error::NotFound) && *final(self) == *old(self),
            old(self).has_input(name@) ==> ({
                let idx = old(self).the_input_index(name@);
                &&& final(self).inputs@ == old(self).inputs@.update(
                    idx,
                    old(self).inputs@[idx].prop_set(PadProperty::Height(height), update_config),
                )
                &&& final(self).outputs@ == old(self).outputs@
                &&& final(self).pipeline == old(self).pipeline
                &&& (r is Ok <==> old(self).inputs@[idx].video_peer is Some)
            }),
    {
        self.set_input_prop(name, PadProperty::Height(height), update_config)
    }

    /// Looks the source up by name and sets its horizontal position.
    pub fn set_input_xpos(&mut self, name: &String, xpos: i32, update_config: bool) -> (r: Result<
        (),
        Error,
    >)
        requires
            old(self).wf(),
        ensures
            final(self).wf(),
            !old(self).has_input(name@) ==> r == Err::<(), Error>(Error::NotFound) && *final(self) == *old(self),
            old(self).has_input(name@) ==> ({
                let idx = old(self).the_input_index(name@);
                &&& final(self).inputs@ == old(self).inputs@.update(
                    idx,
                    old(self).inputs@[idx].prop_set(PadProperty::Xpos(xpos), update_config),
                )
                &&& final(self).outputs@ == old(self).outputs@
                &&& final(self).pipeline == old(self).pipeline
                &&& (r is Ok <==> old(self).inputs@[idx].video_peer is Some)
            }),
    {
        self.set_input_prop(name, PadProperty::Xpos(xpos), update_config)
    }

    /// Looks the source up by name and sets its vertical position.
    pub fn set_input_ypos(&mut self, name: &String, ypos: i32, update_config: bool) -> (r: Result<
        (),
        Error,
    >)
        requires
            old(self).wf(),
        ensures
            final(self).wf(),
            !old(self).has_input(name@) ==> r == Err::<(), Error>(Error::NotFound) && *final(self) == *old(self),
            old(self).has_input(name@) ==> ({
                let idx = old(self).the_input_index(name@);
                &&& final(self).inputs@ == old(self).inputs@.update(
                    idx,
                    old(self).inputs@[idx].prop_set(PadProperty::Ypos(ypos), update_config),
                )
                &&& final(self).outputs@ == old(self).outputs@
                &&& final(self).pipeline == old(self).pipeline
                &&& (r is Ok <==> old(self).inputs@[idx].video_peer is Some)
            }),
    {
        self.set_input_prop(name, PadProperty::Ypos(ypos), update_config)
    }

    /// Looks the source up by name and sets its opacity (in thousandths).
    pub fn set_input_alpha(&mut self, name: &String, alpha: u32, update_config: bool) -> (r:
        Result<(), Error>)
        requires
            old(self).wf(),
        ensures
            final(self).wf(),
            !old(self).has_input(name@) ==> r == Err::<(), Error>(Error::NotFound) && *final(self) == *old(self),
            old(self).has_input(name@) ==> ({
                let idx = old(self).the_input_index(name@);
                &&& final(self).inputs@ == old(self).inputs@.update(
                    idx,
                    old(self).inputs@[idx].prop_set(PadProperty::Alpha(alpha), update_config),
                )
                &&& final(self).outputs@ == old(self).outputs@
                &&& final(self).pipeline == old(self).pipeline
                &&& (r is Ok <==> old(self).inputs@[idx].video_peer is Some)
            }),
    {
        self.set_input_prop(name, PadProperty::Alpha(alpha), update_config)
    }
}


/// Every node of a destination branch belongs to its owner.
proof fn lemma_branch_nodes_owned(kind: OwnerKind, owner: String, has_mux: bool)
    ensures
        forall|i: int|
            0 <= i < crate::output::branch_node_seq(kind, owner, has_mux).len() ==> node_owned(
                #[trigger] crate::output::branch_node_seq(kind, owner, has_mux)[i],
                kind,
                owner@,
            ),
{
    let s = crate::output::branch_node_seq(kind, owner, has_mux);
    assert forall|i: int| 0 <= i < s.len() implies node_owned(s[i], kind, owner@) by {
        assert(s[i].owner == owner && s[i].kind == kind);
    }
}

/// Every node of a source's subgraph — recording branch included — belongs
/// to that source.
proof fn lemma_input_nodes_owned(name: String, has_record: bool)
    ensures
        forall|i: int|
            0 <= i < input_node_seq(name, has_record).len() ==> node_owned(
                #[trigger] input_node_seq(name, has_record)[i],
                OwnerKind::Input,
                name@,
            ),
{
    let s = input_node_seq(name, has_record);
    assert forall|i: int| 0 <= i < s.len() implies node_owned(s[i], OwnerKind::Input, name@) by {
        assert(s[i].owner == name && s[i].kind == OwnerKind::Input);
    }
}

/// Node accounting carries over to a mixer whose container holds the same
/// nodes and whose registries hold the same names in the same places.
proof fn lemma_accounted_same_names(a: Mixer, b: Mixer)
    requires
        a.nodes_accounted(),
        b.pipeline.nodes@ == a.pipeline.nodes@,
        b.inputs@.len() == a.inputs@.len(),
        forall|i: int|
            0 <= i < a.inputs@.len() ==> (#[trigger] b.inputs@[i]).name@ == a.inputs@[i].name@,
        b.outputs@.len() == a.outputs@.len(),
        forall|i: int|
            0 <= i < a.outputs@.len() ==> (#[trigger] b.outputs@[i]).branch().name@
                == a.outputs@[i].branch().name@,
    ensures
        b.nodes_accounted(),
{
    assert forall|k: int| 0 <= k < b.pipeline.nodes@.len() implies {
        let n = #[trigger] b.pipeline.nodes@[k];
        &&& (n.kind == OwnerKind::Input ==> b.has_input(n.owner@))
        &&& (n.kind == OwnerKind::Output ==> b.has_output(n.owner@))
    } by {
        let n = b.pipeline.nodes@[k];
        assert(n == a.pipeline.nodes@[k]);
        if n.kind == OwnerKind::Input {
            let w = choose|w: int| 0 <= w < a.inputs@.len() && a.inputs@[w].name@ == n.owner@;
            assert(b.inputs@[w].name@ == n.owner@);
        }
        if n.kind == OwnerKind::Output {
            let w = choose|w: int|
                0 <= w < a.outputs@.len() && a.outputs@[w].branch().name@ == n.owner@;
            assert(b.outputs@[w].branch().name@ == n.owner@);
        }
    }
}

/// Node accounting survives registering a source together with its nodes.
proof fn lemma_accounted_add_input(a: Mixer, b: Mixer, added: Input, has_record: bool)
    requires
        a.nodes_accounted(),
        b.inputs@ == a.inputs@.push(added),
        b.outputs@ == a.outputs@,
        b.pipeline.nodes@ == a.pipeline.nodes@ + input_node_seq(added.name, has_record),
    ensures
        b.nodes_accounted(),
{
    lemma_input_nodes_owned(added.name, has_record);
    assert forall|k: int| 0 <= k < b.pipeline.nodes@.len() implies {
        let n = #[trigger] b.pipeline.nodes@[k];
        &&& (n.kind == OwnerKind::Input ==> b.has_input(n.owner@))
        &&& (n.kind == OwnerKind::Output ==> b.has_output(n.owner@))
    } by {
        let n = b.pipeline.nodes@[k];
        if k < a.pipeline.nodes@.len() {
            assert(n == a.pipeline.nodes@[k]);
            if n.kind == OwnerKind::Input {
                let w = choose|w: int|
                    0 <= w < a.inputs@.len() && a.inputs@[w].name@ == n.owner@;
                assert(b.inputs@[w].name@ == n.owner@);
            }
            if n.kind == OwnerKind::Output {
                let w = choose|w: int|
                    0 <= w < a.outputs@.len() && a.outputs@[w].branch().name@ == n.owner@;
                assert(b.outputs@[w].branch().name@ == n.owner@);
            }
        } else {
            let i = k - a.pipeline.nodes@.len();
            assert(n == input_node_seq(added.name, has_record)[i]);
            assert(node_owned(n, OwnerKind::Input, added.name@));
            assert(b.inputs@[b.inputs@.len() - 1].name@ == n.owner@);
        }
    }
}

/// Node accounting survives dropping a source and every node it owned.
proof fn lemma_accounted_remove_input(a: Mixer, b: Mixer, idx: int, name: Seq<char>)
    requires
        a.nodes_accounted(),
        0 <= idx < a.inputs@.len(),
        a.inputs@[idx].name@ == name,
        b.inputs@ == a.inputs@.remove(idx),
        b.outputs@ == a.outputs@,
        b.pipeline.nodes@ == without_owned(a.pipeline.nodes@, OwnerKind::Input, name),
    ensures
        b.nodes_accounted(),
{
    let pred = not_owned_pred(OwnerKind::Input, name);
    assert forall|k: int| 0 <= k < b.pipeline.nodes@.len() implies {
        let n = #[trigger] b.pipeline.nodes@[k];
        &&& (n.kind == OwnerKind::Input ==> b.has_input(n.owner@))
        &&& (n.kind == OwnerKind::Output ==> b.has_output(n.owner@))
    } by {
        let n = b.pipeline.nodes@[k];
        a.pipeline.nodes@.lemma_filter_pred(pred, k);
        a.pipeline.nodes@.lemma_filter_contains_rev(pred, n);
        let src = choose|s: int|
            0 <= s < a.pipeline.nodes@.len() && a.pipeline.nodes@[s] == n;
        if n.kind == OwnerKind::Input {
            let w = choose|w: int| 0 <= w < a.inputs@.len() && a.inputs@[w].name@ == n.owner@;
            assert(n.owner@ != name);
            let w2 = if w < idx { w } else { w - 1 };
            assert(b.inputs@[w2].name@ == n.owner@);
        }
        if n.kind == OwnerKind::Output {
            let w = choose|w: int|
                0 <= w < a.outputs@.len() && a.outputs@[w].branch().name@ == n.owner@;
            assert(b.outputs@[w].branch().name@ == n.owner@);
        }
    }
}

/// Node accounting survives registering a destination with its nodes.
proof fn lemma_accounted_add_output(a: Mixer, b: Mixer, added: Output)
    requires
        a.nodes_accounted(),
        b.inputs@ == a.inputs@,
        b.outputs@ == a.outputs@.push(added),
        b.pipeline.nodes@ == a.pipeline.nodes@ + added.node_seq(),
    ensures
        b.nodes_accounted(),
{
    lemma_branch_nodes_owned(OwnerKind::Output, added.branch().name, added.has_mux_node());
    assert forall|k: int| 0 <= k < b.pipeline.nodes@.len() implies {
        let n = #[trigger] b.pipeline.nodes@[k];
        &&& (n.kind == OwnerKind::Input ==> b.has_input(n.owner@))
        &&& (n.kind == OwnerKind::Output ==> b.has_output(n.owner@))
    } by {
        let n = b.pipeline.nodes@[k];
        if k < a.pipeline.nodes@.len() {
            assert(n == a.pipeline.nodes@[k]);
            if n.kind == OwnerKind::Input {
                let w = choose|w: int|
                    0 <= w < a.inputs@.len() && a.inputs@[w].name@ == n.owner@;
                assert(b.inputs@[w].name@ == n.owner@);
            }
            if n.kind == OwnerKind::Output {
                let w = choose|w: int|
                    0 <= w < a.outputs@.len() && a.outputs@[w].branch().name@ == n.owner@;
                assert(b.outputs@[w].branch().name@ == n.owner@);
            }
        } else {
            let i = k - a.pipeline.nodes@.len();
            assert(n == added.node_seq()[i]);
            assert(node_owned(n, OwnerKind::Output, added.branch().name@));
            assert(b.outputs@[b.outputs@.len() - 1].branch().name@ == n.owner@);
        }
    }
}

/// Node accounting survives dropping a destination and its nodes.
proof fn lemma_accounted_remove_output(a: Mixer, b: Mixer, idx: int, name: Seq<char>)
    requires
        a.nodes_accounted(),
        0 <= idx < a.outputs@.len(),
        a.outputs@[idx].branch().name@ == name,
        b.outputs@ == a.outputs@.remove(idx),
        b.inputs@ == a.inputs@,
        b.pipeline.nodes@ == without_owned(a.pipeline.nodes@, OwnerKind::Output, name),
    ensures
        b.nodes_accounted(),
{
    let pred = not_owned_pred(OwnerKind::Output, name);
    assert forall|k: int| 0 <= k < b.pipeline.nodes@.len() implies {
        let n = #[trigger] b.pipeline.nodes@[k];
        &&& (n.kind == OwnerKind::Input ==> b.has_input(n.owner@))
        &&& (n.kind == OwnerKind::Output ==> b.has_output(n.owner@))
    } by {
        let n = b.pipeline.nodes@[k];
        a.pipeline.nodes@.lemma_filter_pred(pred, k);
        a.pipeline.nodes@.lemma_filter_contains_rev(pred, n);
        let src = choose|s: int|
            0 <= s < a.pipeline.nodes@.len() && a.pipeline.nodes@[s] == n;
        if n.kind == OwnerKind::Input {
            let w = choose|w: int| 0 <= w < a.inputs@.len() && a.inputs@[w].name@ == n.owner@;
            assert(b.inputs@[w].name@ == n.owner@);
        }
        if n.kind == OwnerKind::Output {
            let w = choose|w: int|
                0 <= w < a.outputs@.len() && a.outputs@[w].branch().name@ == n.owner@;
            assert(n.owner@ != name);
            let w2 = if w < idx { w } else { w - 1 };
            assert(b.outputs@[w2].branch().name@ == n.owner@);
        }
    }
}

/// Every node of a source's subgraph — recording branch included — belongs
/// to that source, so removing the source filters them all out.
proof fn lemma_input_nodes_filtered_out(name: String, has_record: bool)
    ensures
        without_owned(input_node_seq(name, has_record), OwnerKind::Input, name@)
            == Seq::<NodeId>::empty(),
{
    let s = input_node_seq(name, has_record);
    let pred = not_owned_pred(OwnerKind::Input, name@);
    assert forall|i: int| 0 <= i < s.len() implies !pred(s[i]) by {
        assert(s[i].owner == name && s[i].kind == OwnerKind::Input);
    }
    s.lemma_all_neg_filter_empty(pred);
    assert(without_owned(s, OwnerKind::Input, name@) =~= Seq::<NodeId>::empty());
}

/// Adding a source and then removing it restores the mixer exactly: the
/// registry afterward holds exactly the sources not removed, and the
/// container holds no node of the removed source — teardown leaves nothing
/// orphaned. `m1` is what `add_input` made of `m0` (its contract, spelled
/// out), `m2` what `remove_input` made of `m1`.
pub proof fn lemma_add_remove_input_round_trip(m0: Mixer, m1: Mixer, m2: Mixer, name: Seq<char>)
    requires
        m0.wf(),
        !m0.has_input(name),
        m1.inputs@.len() == m0.inputs@.len() + 1,
        m1.inputs@.subrange(0, m0.inputs@.len() as int) == m0.inputs@,
        m1.inputs@.last().name@ == name,
        m1.pipeline.nodes@ == m0.pipeline.nodes@ + input_node_seq(
            m1.inputs@.last().name,
            m1.inputs@.last().record is Some,
        ),
        m1.outputs@ == m0.outputs@,
        m1.pipeline.state == m0.pipeline.state,
        m1.wf(),
        m2.inputs@ == m1.inputs@.remove(m1.the_input_index(name)),
        m2.pipeline.nodes@ == without_owned(m1.pipeline.nodes@, OwnerKind::Input, name),
        m2.outputs@ == m1.outputs@,
        m2.pipeline.state == m1.pipeline.state,
    ensures
        m2.inputs@ == m0.inputs@,
        m2.outputs@ == m0.outputs@,
        m2.pipeline.nodes@ == m0.pipeline.nodes@,
        m2.pipeline.state == m0.pipeline.state,
        !m2.has_input(name),
        !m2.pipeline.has_owned(OwnerKind::Input, name),
{
    let last = m0.inputs@.len() as int;
    // the removed index is the appended source: names are unique in m1, and
    // none of m0's sources carried the name
    let k = m1.the_input_index(name);
    assert(0 <= k < m1.inputs@.len() && m1.inputs@[k].name@ == name) by {
        assert(m1.inputs@[last].name@ == name);
    }
    if k != last {
        assert(m0.inputs@[k] == m1.inputs@.subrange(0, last)[k]);
        assert(m0.has_input(name));
    }
    assert(m2.inputs@ =~= m0.inputs@);
    // the appended nodes all belong to the removed source; none of m0's do
    let appended = input_node_seq(m1.inputs@.last().name, m1.inputs@.last().record is Some);
    let pred = not_owned_pred(OwnerKind::Input, name);
    Seq::filter_distributes_over_add(m0.pipeline.nodes@, appended, pred);
    assert forall|i: int| 0 <= i < m0.pipeline.nodes@.len() implies pred(
        #[trigger] m0.pipeline.nodes@[i],
    ) by {
        let n = m0.pipeline.nodes@[i];
        if node_owned(n, OwnerKind::Input, name) {
            // a container never holds an unregistered owner's node
            assert(m0.has_input(n.owner@));
        }
    }
    lemma_filter_retains_all(m0.pipeline.nodes@, pred);
    lemma_input_nodes_filtered_out(m1.inputs@.last().name, m1.inputs@.last().record is Some);
    assert(m2.pipeline.nodes@ =~= m0.pipeline.nodes@);
}

/// Removing one destination does not disturb another: every remaining
/// destination is still registered in place, still linked, and every
/// container node it owns still stands — branches off the shared tees do
/// not couple their lifecycles. `m2` is what `remove_output` made of `m1`;
/// `n` is any node of the remaining destination at registry position `j`.
pub proof fn lemma_remove_output_fanout_independence(
    m1: Mixer,
    m2: Mixer,
    name: Seq<char>,
    j: int,
    n: NodeId,
)
    requires
        m1.wf(),
        m1.has_output(name),
        m2.outputs@ == m1.outputs@.remove(m1.the_output_index(name)),
        m2.pipeline.nodes@ == without_owned(m1.pipeline.nodes@, OwnerKind::Output, name),
        0 <= j < m2.outputs@.len(),
        m1.pipeline.nodes@.contains(n),
        node_owned(n, OwnerKind::Output, m2.outputs@[j].branch().name@),
    ensures
        m2.outputs@[j].branch().linked,
        m2.outputs@[j].branch().name@ != name,
        m2.pipeline.nodes@.contains(n),
{
    let idx = m1.the_output_index(name);
    assert(0 <= idx < m1.outputs@.len() && m1.outputs@[idx].branch().name@ == name);
    let oj = if j < idx { j } else { j + 1 };
    assert(m2.outputs@[j] == m1.outputs@[oj]);
    assert(m2.outputs@[j].branch().name@ != name);
    let i = choose|i: int| 0 <= i < m1.pipeline.nodes@.len() && m1.pipeline.nodes@[i] == n;
    m1.pipeline.nodes@.lemma_filter_contains(not_owned_pred(OwnerKind::Output, name), i);
}

} // verus!
