//! Sources: one decode → convert/scale/rate-normalize → format-lock → tee →
//! queue subgraph per source, the asynchronous attach decisions taken when
//! the source's streams are discovered, and an optional recording branch.

use crate::config::{AudioEncoder, AudioEncoderConfig, Config, Mux, PlayState, VideoConfig,
    VideoEncoder, VideoEncoderConfig};
use crate::output;
use crate::pad::{release_request_pad, set_peer_pad_property, with_property, PadProperty, PeerPad};
use crate::pipeline::{without_owned, NodeId, OwnerKind, Pipeline, Role};
use crate::Error;
use vstd::prelude::*;
use vstd::string::StringExecFns;

verus! {

/// The decimal digit `d` (at most 9) as a character.
pub open spec fn digit_char(d: nat) -> char {
    if d == 0 {
        '0'
    } else if d == 1 {
        '1'
    } else if d == 2 {
        '2'
    } else if d == 3 {
        '3'
    } else if d == 4 {
        '4'
    } else if d == 5 {
        '5'
    } else if d == 6 {
        '6'
    } else if d == 7 {
        '7'
    } else if d == 8 {
        '8'
    } else {
        '9'
    }
}

/// `n` written in decimal, most significant digit first, no leading zeros
/// (a single `'0'` for zero).
pub open spec fn decimal_digits(n: nat) -> Seq<char>
    decreases n,
{
    if n < 10 {
        seq![digit_char(n)]
    } else {
        decimal_digits(n / 10).push(digit_char(n % 10))
    }
}

/// Appends `n` in decimal to `s`.
fn push_decimal(s: &mut String, n: u64)
    ensures
        final(s)@ == old(s)@ + decimal_digits(n as nat),
    decreases n,
{
    let ghost pre = s@;
    if n >= 10 {
        push_decimal(s, n / 10);
    }
    let d = n % 10;
    let digit: &str = if d == 0 {
        "0"
    } else if d == 1 {
        "1"
    } else if d == 2 {
        "2"
    } else if d == 3 {
        "3"
    } else if d == 4 {
        "4"
    } else if d == 5 {
        "5"
    } else if d == 6 {
        "6"
    } else if d == 7 {
        "7"
    } else if d == 8 {
        "8"
    } else {
        "9"
    };
    proof {
        reveal_strlit("0");
        reveal_strlit("1");
        reveal_strlit("2");
        reveal_strlit("3");
        reveal_strlit("4");
        reveal_strlit("5");
        reveal_strlit("6");
        reveal_strlit("7");
        reveal_strlit("8");
        reveal_strlit("9");
        assert(digit@ =~= seq![digit_char((n % 10) as nat)]);
    }
    s.append(digit);
    proof {
        if n >= 10 {
            assert(s@ =~= pre + decimal_digits((n / 10) as nat).push(digit_char((n % 10) as nat)));
        } else {
            assert(s@ =~= pre + seq![digit_char(n as nat)]);
        }
    }
}

/// The identity of a source's recording branch, derived from the source's
/// own name.
pub open spec fn record_name_spec(name: Seq<char>) -> Seq<char> {
    "record_"@ + name
}

/// Builds the recording-branch name of `record_name_spec`.
fn record_branch_name(name: &String) -> (r: String)
    ensures
        r@ == record_name_spec(name@),
{
    let mut s = "record_".to_owned();
    s.append(name.as_str());
    s
}

/// Where a source's recording lands: one container file per source, at a
/// path derived from the source's name and the process-start timestamp.
pub open spec fn recording_path_spec(name: Seq<char>, timestamp: u64) -> Seq<char> {
    "./recordings/input_"@ + name + "_"@ + decimal_digits(timestamp as nat) + ".mkv"@
}

/// Builds the recording path of `recording_path_spec`.
fn recording_path(name: &String, timestamp: u64) -> (r: String)
    ensures
        r@ == recording_path_spec(name@, timestamp),
{
    let mut s = "./recordings/input_".to_owned();
    s.append(name.as_str());
    s.append("_");
    push_decimal(&mut s, timestamp);
    s.append(".mkv");
    proof {
        assert(s@ =~= recording_path_spec(name@, timestamp));
    }
    s
}

/// A source's recording branch: the fixed lossless-friendly codec pair and
/// container, aimed at the derived local path. Its nodes live under the
/// owning source's name; the engine drives their state with the container's.
pub struct RecordBranch {
    pub config: output::Config,
    pub location: String,
}

/// A source fed from a single locator, the construction every operation of
/// this module takes. Sources are addressed by URI, so the type goes by that
/// name as well.
pub type URI = Input;

/// The media kind the engine reports for a newly discovered elementary
/// stream.
#[derive(Clone, Copy, Debug, PartialEq, Eq, Structural)]
pub enum StreamKind {
    Audio,
    Video,
    Other,
}

/// What one invocation of the attach callback did.
#[derive(Clone, Copy, Debug, PartialEq, Eq, Structural)]
pub enum AttachOutcome {
    /// The stream was connected to the shared mix, offset to the current
    /// running time.
    Linked,
    /// That media kind was already connected; nothing was touched.
    AlreadyLinked,
    /// An unknown kind, or a source whose connection points are gone; the
    /// attempt aborted without touching anything.
    Ignored,
}

/// The source-local position a stream offset by `offset` shows when the
/// shared timeline stands at `running_time`.
pub open spec fn stream_position(offset: int, running_time: int) -> int {
    running_time + offset
}

/// The negated running time a newly attached stream is offset by.
pub open spec fn neg_offset(t: i64) -> i64 {
    (-(t as int)) as i64
}

/// A compositor peer pad after a source's placement has been re-applied
/// from its stored record: requested zorder (kept when none was requested),
/// opacity, position, and the repeat-at-end-of-stream switch.
pub open spec fn reapplied(pad: PeerPad, vc: VideoConfig) -> PeerPad {
    PeerPad {
        zorder: match vc.zorder {
            Some(z) => z,
            None => pad.zorder,
        },
        alpha: vc.alpha,
        xpos: vc.xpos,
        ypos: vc.ypos,
        repeat: vc.repeat,
        ..pad
    }
}

/// The zorder a source's compositor connection ends up with: the requested
/// one, or the compositor's own assignment when none was requested.
pub open spec fn linked_zorder(requested: Option<u32>, assigned: u32) -> u32 {
    match requested {
        Some(z) => z,
        None => assigned,
    }
}

/// One source: its identity and locator, its stored record, the state of its
/// owned subgraph, its two connections into the shared mix, and the offsets
/// applied when its streams attached.
pub struct Input {
    pub name: String,
    pub location: String,
    pub config: Config,
    /// The "volume" property on the owned volume node.
    pub volume_prop: u32,
    /// Whether this source's nodes stand in the container.
    pub linked: bool,
    pub state: PlayState,
    /// The requested pad on the shared audio mix, once linked.
    pub audio_peer: Option<PeerPad>,
    /// The requested pad on the shared compositor, once linked.
    pub video_peer: Option<PeerPad>,
    /// The time offset applied when the audio stream attached.
    pub audio_attach: Option<i64>,
    /// The time offset applied when the video stream attached.
    pub video_attach: Option<i64>,
    pub record: Option<RecordBranch>,
}

/// The nodes a source owns, in the order they are added: the two tee/queue
/// pairs first, then (when recording) the recording branch, then the decode
/// stage and the two conversion chains.
pub open spec fn input_node_seq(name: String, has_record: bool) -> Seq<NodeId> {
    let kind = OwnerKind::Input;
    let pre = seq![
        NodeId { kind, owner: name, role: Role::AudioTeeQueue },
        NodeId { kind, owner: name, role: Role::AudioTee },
        NodeId { kind, owner: name, role: Role::VideoTeeQueue },
        NodeId { kind, owner: name, role: Role::VideoTee },
    ];
    let rec = if has_record {
        output::branch_node_seq(kind, name, true)
    } else {
        Seq::<NodeId>::empty()
    };
    let main = seq![
        NodeId { kind, owner: name, role: Role::Source },
        NodeId { kind, owner: name, role: Role::AudioConvert },
        NodeId { kind, owner: name, role: Role::AudioVolume },
        NodeId { kind, owner: name, role: Role::AudioResample },
        NodeId { kind, owner: name, role: Role::AudioQueue },
        NodeId { kind, owner: name, role: Role::VideoConvert },
        NodeId { kind, owner: name, role: Role::VideoScale },
        NodeId { kind, owner: name, role: Role::VideoRate },
        NodeId { kind, owner: name, role: Role::VideoCapsfilter },
        NodeId { kind, owner: name, role: Role::VideoQueue },
    ];
    pre + rec + main
}

impl Input {
    /// The record a freshly created source's recording branch carries:
    /// the source's own format, the fixed codec pair and container.
    pub open spec fn record_config_matches(self, config: Config, timestamp: u64) -> bool {
        match self.record {
            Some(rb) => {
                &&& rb.config.name@ == record_name_spec(config.name@)
                &&& rb.config.video == config.video
                &&& rb.config.audio == config.audio
                &&& rb.config.encoder == (output::EncoderConfig {
                    audio: AudioEncoderConfig { encoder: AudioEncoder::Vorbis },
                    video: VideoEncoderConfig { encoder: VideoEncoder::Vp9, speed: None },
                })
                &&& rb.config.mux == Some(Mux::Mkv)
                &&& rb.location@ == recording_path_spec(config.name@, timestamp)
            },
            None => false,
        }
    }

    /// Builds the full per-source subgraph state for a record and a source
    /// locator, and — when the record asks for it — the recording branch at
    /// the timestamped local path.
    ///
    /// The engine registers the stream-discovery callback here; nothing is
    /// connected to the shared mix yet, and nothing stands in the container
    /// until `link`.
    pub fn create(config: Config, uri: &str, timestamp: u64) -> (r: Result<Input, Error>)
        ensures
            r is Ok,
            r matches Ok(i) ==> {
                &&& i.name == config.name
                &&& i.location@ == uri@
                &&& i.config == config
                &&& i.volume_prop == config.audio.volume
                &&& !i.linked
                &&& i.state == PlayState::Null
                &&& i.audio_peer is None
                &&& i.video_peer is None
                &&& i.audio_attach is None
                &&& i.video_attach is None
                &&& config.record ==> i.record_config_matches(config, timestamp)
                &&& !config.record ==> i.record is None
            },
    {
        let record = if config.record {
            let rb_config = output::Config {
                name: record_branch_name(&config.name),
                video: config.video.dup(),
                audio: config.audio.dup(),
                encoder: output::EncoderConfig {
                    audio: AudioEncoderConfig { encoder: AudioEncoder::Vorbis },
                    video: VideoEncoderConfig { encoder: VideoEncoder::Vp9, speed: None },
                },
                mux: Some(Mux::Mkv),
            };
            Some(RecordBranch {
                config: rb_config,
                location: recording_path(&config.name, timestamp),
            })
        } else {
            None
        };
        let volume_prop = config.audio.volume;
        Ok(Input {
            name: config.name.clone(),
            location: uri.to_owned(),
            config,
            volume_prop,
            linked: false,
            state: PlayState::Null,
            audio_peer: None,
            video_peer: None,
            audio_attach: None,
            video_attach: None,
            record,
        })
    }

    /// This source's identity, cloned out.
    pub fn name(&self) -> (r: String)
        ensures
            r == self.name,
    {
        self.name.clone()
    }

    /// This source's stored record, cloned out.
    pub fn config(&self) -> (r: Config)
        ensures
            r == self.config,
    {
        self.config.dup()
    }

    /// Adds this source's nodes to the container (tee/queue pairs, then the
    /// recording branch, then the rest), links the internal chains and the
    /// two connections into the shared mix, brings the source to the
    /// container's state, and stores the zorder its compositor connection
    /// carries — the compositor's own assignment (`assigned_zorder`, read
    /// back from the live graph) when the record did not request one.
    ///
    /// Linking must happen exactly once, before `unlink` removes anything.
    pub fn link(&mut self, pipeline: &mut Pipeline, assigned_zorder: u32) -> (r: Result<
        (),
        Error,
    >)
        requires
            !old(self).linked,
        ensures
            r is Ok,
            *final(self) == (Input {
                config: Config {
                    video: VideoConfig {
                        zorder: Some(
                            linked_zorder(old(self).config.video.zorder, assigned_zorder),
                        ),
                        ..old(self).config.video
                    },
                    ..old(self).config
                },
                linked: true,
                state: old(pipeline).state,
                audio_peer: Some(PeerPad::fresh_spec(0)),
                video_peer: Some(
                    PeerPad::fresh_spec(
                        linked_zorder(old(self).config.video.zorder, assigned_zorder),
                    ),
                ),
                ..*old(self)
            }),
            // the read-back invariant: the stored zorder is the one the
            // compositor connection actually carries
            final(self).config.video.zorder == Some(
                final(self).video_peer.unwrap().zorder,
            ),
            old(self).config.video.zorder is None ==> final(self).config.video.zorder
                == Some(assigned_zorder),
            final(pipeline).nodes@ == old(pipeline).nodes@ + input_node_seq(
                old(self).name,
                old(self).record is Some,
            ),
            final(pipeline).state == old(pipeline).state,
    {
        let ghost nodes0 = pipeline.nodes@;
        let kind = OwnerKind::Input;
        pipeline.add_node(NodeId { kind, owner: self.name.clone(), role: Role::AudioTeeQueue });
        pipeline.add_node(NodeId { kind, owner: self.name.clone(), role: Role::AudioTee });
        pipeline.add_node(NodeId { kind, owner: self.name.clone(), role: Role::VideoTeeQueue });
        pipeline.add_node(NodeId { kind, owner: self.name.clone(), role: Role::VideoTee });
        if self.record.is_some() {
            pipeline.add_node(NodeId {
                kind,
                owner: self.name.clone(),
                role: Role::BranchAudioQueue,
            });
            pipeline.add_node(NodeId {
                kind,
                owner: self.name.clone(),
                role: Role::BranchVideoQueue,
            });
            pipeline.add_node(NodeId {
                kind,
                owner: self.name.clone(),
                role: Role::BranchAudioEncode,
            });
            pipeline.add_node(NodeId {
                kind,
                owner: self.name.clone(),
                role: Role::BranchVideoEncode,
            });
            pipeline.add_node(NodeId { kind, owner: self.name.clone(), role: Role::BranchMux });
            pipeline.add_node(NodeId { kind, owner: self.name.clone(), role: Role::BranchSink });
        }
        pipeline.add_node(NodeId { kind, owner: self.name.clone(), role: Role::Source });
        pipeline.add_node(NodeId { kind, owner: self.name.clone(), role: Role::AudioConvert });
        pipeline.add_node(NodeId { kind, owner: self.name.clone(), role: Role::AudioVolume });
        pipeline.add_node(NodeId { kind, owner: self.name.clone(), role: Role::AudioResample });
        pipeline.add_node(NodeId { kind, owner: self.name.clone(), role: Role::AudioQueue });
        pipeline.add_node(NodeId { kind, owner: self.name.clone(), role: Role::VideoConvert });
        pipeline.add_node(NodeId { kind, owner: self.name.clone(), role: Role::VideoScale });
        pipeline.add_node(NodeId { kind, owner: self.name.clone(), role: Role::VideoRate });
        pipeline.add_node(NodeId { kind, owner: self.name.clone(), role: Role::VideoCapsfilter });
        pipeline.add_node(NodeId { kind, owner: self.name.clone(), role: Role::VideoQueue });
        proof {
            assert(pipeline.nodes@ =~= nodes0 + input_node_seq(self.name, self.record is Some));
        }
        let zorder = match self.config.video.zorder {
            Some(z) => z,
            None => assigned_zorder,
        };
        self.config.video.zorder = Some(zorder);
        self.audio_peer = Some(PeerPad::fresh(0));
        self.video_peer = Some(PeerPad::fresh(zorder));
        self.linked = true;
        self.state = pipeline.state;
        Ok(())
    }

    /// Releases this source's two requested connection points, then — only
    /// if it was linked — removes all of its nodes (recording branch
    /// included) from the container. Safe on a never-linked source.
    pub fn unlink(&mut self, pipeline: &mut Pipeline) -> (r: Result<(), Error>)
        ensures
            r is Ok,
            *final(self) == (Input {
                linked: false,
                audio_peer: None,
                video_peer: None,
                audio_attach: None,
                video_attach: None,
                ..*old(self)
            }),
            old(self).linked ==> final(pipeline).nodes@ == without_owned(
                old(pipeline).nodes@,
                OwnerKind::Input,
                old(self).name@,
            ),
            !old(self).linked ==> final(pipeline).nodes@ == old(pipeline).nodes@,
            final(pipeline).state == old(pipeline).state,
    {
        release_request_pad(&mut self.audio_peer)?;
        release_request_pad(&mut self.video_peer)?;
        if self.linked {
            pipeline.remove_owned(OwnerKind::Input, &self.name);
            self.linked = false;
        }
        self.audio_attach = None;
        self.video_attach = None;
        Ok(())
    }

    /// Propagates a playback-state transition to every node this source
    /// owns directly — not to its recording branch, which manages its own
    /// state.
    pub fn set_state(&mut self, state: PlayState) -> (r: Result<(), Error>)
        ensures
            r is Ok,
            *final(self) == (Input { state, ..*old(self) }),
    {
        self.state = state;
        Ok(())
    }

    /// The record after `prop` has been stored in it: the one video field
    /// the property stands for changes, nothing else does.
    pub open spec fn config_with_prop(c: Config, prop: PadProperty) -> Config {
        match prop {
            PadProperty::Zorder(z) => Config {
                video: VideoConfig { zorder: Some(z), ..c.video },
                ..c
            },
            PadProperty::Alpha(a) => Config { video: VideoConfig { alpha: a, ..c.video }, ..c },
            PadProperty::Xpos(x) => Config { video: VideoConfig { xpos: x, ..c.video }, ..c },
            PadProperty::Ypos(y) => Config { video: VideoConfig { ypos: y, ..c.video }, ..c },
            PadProperty::Width(w) => Config { video: VideoConfig { width: w, ..c.video }, ..c },
            PadProperty::Height(h) => Config {
                video: VideoConfig { height: h, ..c.video },
                ..c
            },
            PadProperty::Repeat(b) => Config {
                video: VideoConfig { repeat: b, ..c.video },
                ..c
            },
        }
    }

    /// This source after a placement property has been set: stored in the
    /// record when asked either way, and propagated to the compositor-side
    /// peer of its video connection when one is connected.
    pub open spec fn prop_set(self, prop: PadProperty, update_config: bool) -> Input {
        let stored = if update_config {
            Input::config_with_prop(self.config, prop)
        } else {
            self.config
        };
        match self.video_peer {
            Some(pad) => Input {
                config: stored,
                video_peer: Some(with_property(pad, prop)),
                ..self
            },
            None => Input { config: stored, ..self },
        }
    }

    /// The shared step behind every placement setter: store the new value
    /// when asked, then propagate it to the compositor-side peer of this
    /// source's video connection — where those properties live. Fails with
    /// `Error::Graph` when no peer is connected; the stored record keeps the
    /// new value even then, as an explicit `link`-time restore target.
    pub(crate) fn apply_prop(&mut self, prop: PadProperty, update_config: bool) -> (r: Result<(), Error>)
        ensures
            *final(self) == old(self).prop_set(prop, update_config),
            r is Ok <==> old(self).video_peer is Some,
            old(self).video_peer is None ==> r == Err::<(), Error>(Error::Graph),
    {
        if update_config {
            match prop {
                PadProperty::Zorder(z) => self.config.video.zorder = Some(z),
                PadProperty::Alpha(a) => self.config.video.alpha = a,
                PadProperty::Xpos(x) => self.config.video.xpos = x,
                PadProperty::Ypos(y) => self.config.video.ypos = y,
                PadProperty::Width(w) => self.config.video.width = w,
                PadProperty::Height(h) => self.config.video.height = h,
                PadProperty::Repeat(b) => self.config.video.repeat = b,
            }
        }
        set_peer_pad_property(&mut self.video_peer, prop)
    }

    /// This source after its audio level has been set: stored in the record
    /// when asked, and always propagated to the owned volume node.
    pub open spec fn volume_set(self, volume: u32, update_config: bool) -> Input {
        Input {
            config: if update_config {
                Config {
                    audio: crate::config::AudioConfig { volume },
                    ..self.config
                }
            } else {
                self.config
            },
            volume_prop: volume,
            ..self
        }
    }

    /// Sets the audio level, optionally storing it in the record, and
    /// propagates it to the owned volume node.
    pub fn set_volume(&mut self, volume: u32, update_config: bool) -> (r: Result<(), Error>)
        ensures
            r is Ok,
            *final(self) == old(self).volume_set(volume, update_config),
    {
        if update_config {
            self.config.audio.volume = volume;
        }
        self.volume_prop = volume;
        Ok(())
    }

    /// Sets the compositor layering order for this source.
    pub fn set_zorder(&mut self, zorder: u32, update_config: bool) -> (r: Result<(), Error>)
        ensures
            *final(self) == old(self).prop_set(PadProperty::Zorder(zorder), update_config),
            r is Ok <==> old(self).video_peer is Some,
            old(self).video_peer is None ==> r == Err::<(), Error>(Error::Graph),
    {
        self.apply_prop(PadProperty::Zorder(zorder), update_config)
    }

    /// Sets the target width for this source on the compositor.
    pub fn set_width(&mut self, width: i32, update_config: bool) -> (r: Result<(), Error>)
        ensures
            *final(self) == old(self).prop_set(PadProperty::Width(width), update_config),
            r is Ok <==> old(self).video_peer is Some,
            old(self).video_peer is None ==> r == Err::<(), Error>(Error::Graph),
    {
        self.apply_prop(PadProperty::Width(width), update_config)
    }

    /// Sets the target height for this source on the compositor.
    pub fn set_height(&mut self, height: i32, update_config: bool) -> (r: Result<(), Error>)
        ensures
            *final(self) == old(self).prop_set(PadProperty::Height(height), update_config),
            r is Ok <==> old(self).video_peer is Some,
            old(self).video_peer is None ==> r == Err::<(), Error>(Error::Graph),
    {
        self.apply_prop(PadProperty::Height(height), update_config)
    }

    /// Sets the horizontal position for this source on the compositor.
    pub fn set_xpos(&mut self, xpos: i32, update_config: bool) -> (r: Result<(), Error>)
        ensures
            *final(self) == old(self).prop_set(PadProperty::Xpos(xpos), update_config),
            r is Ok <==> old(self).video_peer is Some,
            old(self).video_peer is None ==> r == Err::<(), Error>(Error::Graph),
    {
        self.apply_prop(PadProperty::Xpos(xpos), update_config)
    }

    /// Sets the vertical position for this source on the compositor.
    pub fn set_ypos(&mut self, ypos: i32, update_config: bool) -> (r: Result<(), Error>)
        ensures
            *final(self) == old(self).prop_set(PadProperty::Ypos(ypos), update_config),
            r is Ok <==> old(self).video_peer is Some,
            old(self).video_peer is None ==> r == Err::<(), Error>(Error::Graph),
    {
        self.apply_prop(PadProperty::Ypos(ypos), update_config)
    }

    /// Sets the opacity (in thousandths) for this source on the compositor.
    pub fn set_alpha(&mut self, alpha: u32, update_config: bool) -> (r: Result<(), Error>)
        ensures
            *final(self) == old(self).prop_set(PadProperty::Alpha(alpha), update_config),
            r is Ok <==> old(self).video_peer is Some,
            old(self).video_peer is None ==> r == Err::<(), Error>(Error::Graph),
    {
        self.apply_prop(PadProperty::Alpha(alpha), update_config)
    }

    /// What the attach callback reports for a stream of kind `kind`,
    /// given this source's current connections.
    pub open spec fn attach_outcome(self, kind: StreamKind) -> AttachOutcome {
        if !self.linked {
            AttachOutcome::Ignored
        } else {
            match kind {
                StreamKind::Other => AttachOutcome::Ignored,
                StreamKind::Audio => if self.audio_attach is Some {
                    AttachOutcome::AlreadyLinked
                } else {
                    AttachOutcome::Linked
                },
                StreamKind::Video => if self.video_attach is Some {
                    AttachOutcome::AlreadyLinked
                } else {
                    AttachOutcome::Linked
                },
            }
        }
    }

    /// This source after the attach callback has run for a stream of kind
    /// `kind` with the shared clock at `t`: unchanged unless the stream was
    /// connected, in which case its offset is the negated running time, and
    /// a video stream additionally has the stored placement re-applied to
    /// the compositor connection.
    pub open spec fn attach_result(self, kind: StreamKind, t: i64) -> Input {
        if self.attach_outcome(kind) != AttachOutcome::Linked {
            self
        } else {
            match kind {
                StreamKind::Other => self,
                StreamKind::Audio => Input { audio_attach: Some(neg_offset(t)), ..self },
                StreamKind::Video => Input {
                    video_attach: Some(neg_offset(t)),
                    video_peer: match self.video_peer {
                        Some(pad) => Some(reapplied(pad, self.config.video)),
                        None => None,
                    },
                    ..self
                },
            }
        }
    }

    /// The asynchronous attach decision, taken once per elementary stream
    /// the engine discovers inside this source, at an unpredictable time:
    /// connect an audio or video stream to the shared mix — offset by the
    /// negated current running time, so the source is not fast-forwarded —
    /// or observe that the kind is already connected (a safe no-op), or
    /// ignore an unknown kind or a source that has been unlinked meanwhile.
    pub fn handle_pad_added(&mut self, kind: StreamKind, running_time: i64) -> (r: AttachOutcome)
        requires
            0 <= running_time,
        ensures
            r == old(self).attach_outcome(kind),
            *final(self) == old(self).attach_result(kind, running_time),
            r == AttachOutcome::Linked && kind == StreamKind::Video ==> final(self).video_attach
                == Some(neg_offset(running_time)),
            r == AttachOutcome::Linked && kind == StreamKind::Audio ==> final(self).audio_attach
                == Some(neg_offset(running_time)),
    {
        if !self.linked {
            return AttachOutcome::Ignored;
        }
        match kind {
            StreamKind::Other => AttachOutcome::Ignored,
            StreamKind::Audio => {
                if self.audio_attach.is_some() {
                    return AttachOutcome::AlreadyLinked;
                }
                self.audio_attach = Some(-running_time);
                AttachOutcome::Linked
            },
            StreamKind::Video => {
                if self.video_attach.is_some() {
                    return AttachOutcome::AlreadyLinked;
                }
                if self.video_peer.is_some() {
                    // the connection into the compositor already stands: a
                    // stream (re)start must not lose placement, so re-apply
                    // it from the stored record
                    match self.config.video.zorder {
                        Some(z) => {
                            let _ = set_peer_pad_property(&mut self.video_peer, PadProperty::Zorder(z));
                        },
                        None => {},
                    }
                    let alpha = self.config.video.alpha;
                    let _ = set_peer_pad_property(&mut self.video_peer, PadProperty::Alpha(alpha));
                    let xpos = self.config.video.xpos;
                    let _ = set_peer_pad_property(&mut self.video_peer, PadProperty::Xpos(xpos));
                    let ypos = self.config.video.ypos;
                    let _ = set_peer_pad_property(&mut self.video_peer, PadProperty::Ypos(ypos));
                    let repeat = self.config.video.repeat;
                    let _ = set_peer_pad_property(&mut self.video_peer, PadProperty::Repeat(repeat));
                }
                self.video_attach = Some(-running_time);
                AttachOutcome::Linked
            },
        }
    }
}

/// A source joining at running time `t` is offset so that its own time zero
/// falls at `t` on the shared timeline: at the attach moment it shows
/// position zero — it is not fast-forwarded to catch up.
pub proof fn lemma_late_join_no_fast_forward(i: Input, t: i64)
    requires
        i.linked,
        i.video_attach is None,
        0 <= t,
    ensures
        i.attach_result(StreamKind::Video, t).video_attach == Some(neg_offset(t)),
        stream_position(neg_offset(t) as int, t as int) == 0,
{
}

/// Two sources attaching at running times `ta` and `tb` stay running-time
/// aligned: whenever the shared timeline stands at `r`, each shows exactly
/// the time elapsed since its own join — their positions differ by the
/// constant `tb - ta`, never by their sources' own starts.
pub proof fn lemma_attach_running_time_alignment(a: Input, b: Input, ta: i64, tb: i64, r: int)
    requires
        a.video_attach == Some(neg_offset(ta)),
        b.video_attach == Some(neg_offset(tb)),
        0 <= ta,
        0 <= tb,
    ensures
        stream_position(a.video_attach.unwrap() as int, r) == r - ta,
        stream_position(b.video_attach.unwrap() as int, r) == r - tb,
        stream_position(a.video_attach.unwrap() as int, r) - stream_position(
            b.video_attach.unwrap() as int,
            r,
        ) == tb - ta,
{
}

/// Attaching the same media kind twice connects exactly once: the first
/// attempt on an unconnected kind connects it, and the second attempt
/// observes the existing connection, changes nothing, and says so.
pub proof fn lemma_attach_idempotent(i: Input, kind: StreamKind, t1: i64, t2: i64)
    requires
        0 <= t1,
        0 <= t2,
    ensures
        ({
            let once = i.attach_result(kind, t1);
            &&& once.attach_result(kind, t2) == once
            &&& (i.linked && kind == StreamKind::Audio && i.audio_attach is None)
                ==> once.audio_attach is Some && once.attach_outcome(kind)
                == AttachOutcome::AlreadyLinked
            &&& (i.linked && kind == StreamKind::Video && i.video_attach is None)
                ==> once.video_attach is Some && once.attach_outcome(kind)
                == AttachOutcome::AlreadyLinked
        }),
{
}

} // verus!
