//! Destinations: one branch off the shared fan-out tees per destination, in
//! four variants — live transmission, auto-negotiated local sink, discard,
//! and file — sharing one contract: create, name, link, unlink, set_state.
//!
//! Because a tee supports any number of simultaneous consumers, linking or
//! unlinking one destination never disturbs another.

use crate::config::{AudioConfig, AudioEncoderConfig, Mux, PlayState, VideoConfig,
    VideoEncoderConfig};
use crate::pad::{release_request_pad, PeerPad};
use crate::pipeline::{NodeId, OwnerKind, Pipeline, Role};
use crate::Error;
use vstd::prelude::*;

verus! {

/// A destination's record: identity, target format, codec selection, and
/// the container to mux into (`None` for destinations that take raw media).
pub struct Config {
    pub name: String,
    pub video: VideoConfig,
    pub audio: AudioConfig,
    pub encoder: EncoderConfig,
    pub mux: Option<Mux>,
}

/// Codec selection for one destination.
#[derive(Clone, Copy, Debug, PartialEq, Eq, Structural)]
pub struct EncoderConfig {
    pub audio: AudioEncoderConfig,
    pub video: VideoEncoderConfig,
}

impl Default for EncoderConfig {
    /// Composes the default audio and video codec choices.
    fn default() -> (r: Self)
        ensures
            r == (EncoderConfig {
                audio: AudioEncoderConfig { encoder: crate::config::AudioEncoder::Aac },
                video: VideoEncoderConfig {
                    encoder: crate::config::VideoEncoder::H264,
                    speed: None,
                },
            }),
    {
        EncoderConfig { audio: AudioEncoderConfig::default(), video: VideoEncoderConfig::default() }
    }
}

impl Config {
    /// An exact copy, cloned out on read.
    pub fn dup(&self) -> (r: Config)
        ensures
            r == *self,
    {
        Config {
            name: self.name.clone(),
            video: self.video.dup(),
            audio: self.audio.dup(),
            encoder: self.encoder,
            mux: self.mux,
        }
    }
}

/// The state every destination variant shares: its record, its target
/// location (empty where not applicable), whether its nodes stand in the
/// container, its playback state, and the two branch pads it has requested
/// off the shared tees.
pub struct Branch {
    pub name: String,
    pub config: Config,
    pub location: String,
    pub linked: bool,
    pub state: PlayState,
    pub audio_tee_peer: Option<PeerPad>,
    pub video_tee_peer: Option<PeerPad>,
}

impl Branch {
    /// A branch that has been created but not yet linked: nothing requested,
    /// nothing in the container, state `Null`.
    pub open spec fn fresh(self, config: Config, location: Seq<char>) -> bool {
        &&& self.name == config.name
        &&& self.config == config
        &&& self.location@ == location
        &&& !self.linked
        &&& self.state == PlayState::Null
        &&& self.audio_tee_peer is None
        &&& self.video_tee_peer is None
    }
}

/// The nodes a destination branch owns, in the order they are added:
/// tee consumption for each media kind, the two encoders, the muxer where
/// the variant uses one, and the sink.
pub open spec fn branch_node_seq(kind: OwnerKind, owner: String, has_mux: bool) -> Seq<NodeId> {
    let head = seq![
        NodeId { kind, owner, role: Role::BranchAudioQueue },
        NodeId { kind, owner, role: Role::BranchVideoQueue },
        NodeId { kind, owner, role: Role::BranchAudioEncode },
        NodeId { kind, owner, role: Role::BranchVideoEncode },
    ];
    let tail = seq![NodeId { kind, owner, role: Role::BranchSink }];
    if has_mux {
        head + seq![NodeId { kind, owner, role: Role::BranchMux }] + tail
    } else {
        head + tail
    }
}

/// A destination. The tag selects the sink behavior; every variant shares
/// the same five operations and nothing beyond them.
pub enum Output {
    RTMP(Branch),
    Auto(Branch),
    Fake(Branch),
    File(Branch),
}

impl Output {
    /// The shared state behind whichever tag this destination carries.
    pub open spec fn branch(self) -> Branch {
        match self {
            Output::RTMP(b) => b,
            Output::Auto(b) => b,
            Output::Fake(b) => b,
            Output::File(b) => b,
        }
    }

    /// Whether this variant muxes before its sink: live transmission and
    /// file destinations do, discard and auto-negotiated sinks take raw
    /// media.
    pub open spec fn has_mux_node(self) -> bool {
        self is RTMP || self is File
    }

    /// This destination with its shared state replaced; the tag is kept.
    pub open spec fn with_branch(self, b: Branch) -> Output {
        match self {
            Output::RTMP(_) => Output::RTMP(b),
            Output::Auto(_) => Output::Auto(b),
            Output::Fake(_) => Output::Fake(b),
            Output::File(_) => Output::File(b),
        }
    }

    /// This destination after a playback-state transition.
    pub open spec fn with_state(self, state: PlayState) -> Output {
        self.with_branch(Branch { state, ..self.branch() })
    }

    /// The nodes this destination owns once linked.
    pub open spec fn node_seq(self) -> Seq<NodeId> {
        branch_node_seq(OwnerKind::Output, self.branch().name, self.has_mux_node())
    }

    /// A live-transmission destination. Requires a container choice in
    /// `config.mux`; refuses the record without one, building nothing.
    pub fn create_rtmp(config: Config, location: &str) -> (r: Result<Self, Error>)
        ensures
            r is Ok <==> config.mux is Some,
            r matches Ok(o) ==> o is RTMP && o.branch().fresh(config, location@),
    {
        if config.mux.is_none() {
            return Err(Error::Graph);
        }
        Ok(Output::RTMP(fresh_branch(config, location)))
    }

    /// A destination on the platform's default audio/video sinks.
    pub fn create_auto(config: Config) -> (r: Result<Self, Error>)
        ensures
            r matches Ok(o) ==> o is Auto && o.branch().fresh(config, Seq::<char>::empty()),
            r is Ok,
    {
        proof {
            reveal_strlit("");
            assert(""@ =~= Seq::<char>::empty());
        }
        Ok(Output::Auto(fresh_branch(config, "")))
    }

    /// A discard destination: media flows, nothing is done with it.
    pub fn create_fake(config: Config) -> (r: Result<Self, Error>)
        ensures
            r matches Ok(o) ==> o is Fake && o.branch().fresh(config, Seq::<char>::empty()),
            r is Ok,
    {
        proof {
            reveal_strlit("");
            assert(""@ =~= Seq::<char>::empty());
        }
        Ok(Output::Fake(fresh_branch(config, "")))
    }

    /// A file destination. Requires a container choice in `config.mux`;
    /// refuses the record without one, building nothing.
    pub fn create_file(config: Config, location: &str) -> (r: Result<Self, Error>)
        ensures
            r is Ok <==> config.mux is Some,
            r matches Ok(o) ==> o is File && o.branch().fresh(config, location@),
    {
        if config.mux.is_none() {
            return Err(Error::Graph);
        }
        Ok(Output::File(fresh_branch(config, location)))
    }

    /// This destination's identity, cloned out.
    pub fn name(&self) -> (r: String)
        ensures
            r == self.branch().name,
    {
        match self {
            Output::RTMP(b) => b.name.clone(),
            Output::Auto(b) => b.name.clone(),
            Output::Fake(b) => b.name.clone(),
            Output::File(b) => b.name.clone(),
        }
    }

    /// The variant tag, as text.
    pub fn output_type(&self) -> (r: String)
        ensures
            self is RTMP ==> r@ == "RTMP"@,
            self is Auto ==> r@ == "Auto"@,
            self is Fake ==> r@ == "Fake"@,
            self is File ==> r@ == "File"@,
    {
        match self {
            Output::RTMP(_) => "RTMP".to_owned(),
            Output::Auto(_) => "Auto".to_owned(),
            Output::Fake(_) => "Fake".to_owned(),
            Output::File(_) => "File".to_owned(),
        }
    }

    /// The network target for live transmission; empty for every other
    /// variant.
    pub fn location(&self) -> (r: String)
        ensures
            self is RTMP ==> r == self.branch().location,
            !(self is RTMP) ==> r@ == Seq::<char>::empty(),
    {
        match self {
            Output::RTMP(b) => b.location.clone(),
            Output::Auto(_) => String::new(),
            Output::Fake(_) => String::new(),
            Output::File(_) => String::new(),
        }
    }

    /// Adds this destination's nodes to the container, links its internal
    /// chain, requests one branch pad off each shared tee, and brings the
    /// branch to the container's current state.
    ///
    /// Linking must happen exactly once, before `set_state` or `unlink`.
    pub fn link(&mut self, pipeline: &mut Pipeline) -> (r: Result<(), Error>)
        requires
            !old(self).branch().linked,
        ensures
            r is Ok,
            *final(self) == old(self).with_branch(
                Branch {
                    linked: true,
                    state: old(pipeline).state,
                    audio_tee_peer: Some(crate::pad::PeerPad::fresh_spec(0)),
                    video_tee_peer: Some(crate::pad::PeerPad::fresh_spec(0)),
                    ..old(self).branch()
                },
            ),
            final(pipeline).nodes@ == old(pipeline).nodes@ + old(self).node_seq(),
            final(pipeline).state == old(pipeline).state,
    {
        match self {
            Output::RTMP(b) => link_branch(b, pipeline, true),
            Output::Auto(b) => link_branch(b, pipeline, false),
            Output::Fake(b) => link_branch(b, pipeline, false),
            Output::File(b) => link_branch(b, pipeline, true),
        }
    }

    /// Releases the two requested tee-branch pads, then removes this
    /// destination's nodes from the container. Nothing another destination
    /// owns is touched.
    pub fn unlink(&mut self, pipeline: &mut Pipeline) -> (r: Result<(), Error>)
        requires
            old(self).branch().linked,
        ensures
            r is Ok,
            *final(self) == old(self).with_branch(
                Branch {
                    linked: false,
                    audio_tee_peer: None,
                    video_tee_peer: None,
                    ..old(self).branch()
                },
            ),
            final(pipeline).nodes@ == crate::pipeline::without_owned(
                old(pipeline).nodes@,
                OwnerKind::Output,
                old(self).branch().name@,
            ),
            final(pipeline).state == old(pipeline).state,
    {
        match self {
            Output::RTMP(b) => unlink_branch(b, pipeline),
            Output::Auto(b) => unlink_branch(b, pipeline),
            Output::Fake(b) => unlink_branch(b, pipeline),
            Output::File(b) => unlink_branch(b, pipeline),
        }
    }

    /// Propagates a playback-state transition to every node this
    /// destination owns.
    pub fn set_state(&mut self, state: PlayState) -> (r: Result<(), Error>)
        requires
            old(self).branch().linked,
        ensures
            r is Ok,
            *final(self) == old(self).with_state(state),
    {
        match self {
            Output::RTMP(b) => b.state = state,
            Output::Auto(b) => b.state = state,
            Output::Fake(b) => b.state = state,
            Output::File(b) => b.state = state,
        }
        Ok(())
    }
}

/// Builds the shared state of a destination that has not been linked yet.
fn fresh_branch(config: Config, location: &str) -> (r: Branch)
    ensures
        r.fresh(config, location@),
{
    Branch {
        name: config.name.clone(),
        config,
        location: location.to_owned(),
        linked: false,
        state: PlayState::Null,
        audio_tee_peer: None,
        video_tee_peer: None,
    }
}

/// The shared link step: nodes in, chain linked, one pad requested off each
/// shared tee, branch brought to the container's state.
fn link_branch(b: &mut Branch, pipeline: &mut Pipeline, has_mux: bool) -> (r: Result<(), Error>)
    requires
        !old(b).linked,
    ensures
        r is Ok,
        *final(b) == (Branch {
            linked: true,
            state: old(pipeline).state,
            audio_tee_peer: Some(PeerPad::fresh_spec(0)),
            video_tee_peer: Some(PeerPad::fresh_spec(0)),
            ..*old(b)
        }),
        final(pipeline).nodes@ == old(pipeline).nodes@ + branch_node_seq(
            OwnerKind::Output,
            old(b).name,
            has_mux,
        ),
        final(pipeline).state == old(pipeline).state,
{
    let ghost nodes0 = pipeline.nodes@;
    pipeline.add_node(NodeId {
        kind: OwnerKind::Output,
        owner: b.name.clone(),
        role: Role::BranchAudioQueue,
    });
    pipeline.add_node(NodeId {
        kind: OwnerKind::Output,
        owner: b.name.clone(),
        role: Role::BranchVideoQueue,
    });
    pipeline.add_node(NodeId {
        kind: OwnerKind::Output,
        owner: b.name.clone(),
        role: Role::BranchAudioEncode,
    });
    pipeline.add_node(NodeId {
        kind: OwnerKind::Output,
        owner: b.name.clone(),
        role: Role::BranchVideoEncode,
    });
    if has_mux {
        pipeline.add_node(NodeId {
            kind: OwnerKind::Output,
            owner: b.name.clone(),
            role: Role::BranchMux,
        });
    }
    pipeline.add_node(NodeId {
        kind: OwnerKind::Output,
        owner: b.name.clone(),
        role: Role::BranchSink,
    });
    proof {
        assert(pipeline.nodes@ =~= nodes0 + branch_node_seq(OwnerKind::Output, b.name, has_mux));
    }
    b.linked = true;
    b.state = pipeline.state;
    b.audio_tee_peer = Some(PeerPad::fresh(0));
    b.video_tee_peer = Some(PeerPad::fresh(0));
    Ok(())
}

/// The shared teardown step: both requested pads released, every node of
/// this branch removed from the container.
fn unlink_branch(b: &mut Branch, pipeline: &mut Pipeline) -> (r: Result<(), Error>)
    ensures
        r is Ok,
        *final(b) == (Branch {
            linked: false,
            audio_tee_peer: None,
            video_tee_peer: None,
            ..*old(b)
        }),
        final(pipeline).nodes@ == crate::pipeline::without_owned(
            old(pipeline).nodes@,
            OwnerKind::Output,
            old(b).name@,
        ),
        final(pipeline).state == old(pipeline).state,
{
    release_request_pad(&mut b.audio_tee_peer)?;
    release_request_pad(&mut b.video_tee_peer)?;
    pipeline.remove_owned(OwnerKind::Output, &b.name);
    b.linked = false;
    Ok(())
}

} // verus!
