use switcher::config::{AudioConfig, Config, Mux, PlayState, VideoConfig};
use switcher::input::{AttachOutcome, Input, StreamKind};
use switcher::mixer::Mixer;
use switcher::output::{Config as OutputConfig, EncoderConfig, Output};
use switcher::pipeline::{OwnerKind, Pipeline};
use switcher::Error;

fn video_config(zorder: Option<u32>) -> VideoConfig {
    VideoConfig {
        width: 1280,
        height: 720,
        framerate: 30,
        format: String::from("I420"),
        zorder,
        alpha: 1000,
        xpos: 0,
        ypos: 0,
        repeat: false,
    }
}

fn input_config(name: &str, zorder: Option<u32>, record: bool) -> Config {
    Config {
        name: String::from(name),
        video: video_config(zorder),
        audio: AudioConfig { volume: 1000 },
        record,
    }
}

fn output_config(name: &str, mux: Option<Mux>) -> OutputConfig {
    OutputConfig {
        name: String::from(name),
        video: video_config(None),
        audio: AudioConfig { volume: 1000 },
        encoder: EncoderConfig::default(),
        mux,
    }
}

#[test]
fn implicit_zorder_read_back_after_link() {
    let mut m = Mixer::new();
    let cfg = input_config("cam1", None, false);
    m.add_input(cfg, "rtmp://example/cam1", 1, 7).unwrap();
    let stored = m.input_config(&String::from("cam1")).unwrap();
    assert_eq!(stored.video.zorder, Some(7));
    let peer = m.input_video_peer(&String::from("cam1")).unwrap().unwrap();
    assert_eq!(peer.zorder, 7);
}

#[test]
fn explicit_zorder_kept_after_link() {
    let mut m = Mixer::new();
    let cfg = input_config("cam1", Some(2), false);
    m.add_input(cfg, "rtmp://example/cam1", 1, 9).unwrap();
    let stored = m.input_config(&String::from("cam1")).unwrap();
    assert_eq!(stored.video.zorder, Some(2));
    let peer = m.input_video_peer(&String::from("cam1")).unwrap().unwrap();
    assert_eq!(peer.zorder, 2);
}

#[test]
fn zorder_update_scenario() {
    // add "cam1" with no zorder, 1280x720; the compositor assigns one; bump
    // it by one and both the stored record and the compositor peer follow
    let mut m = Mixer::new();
    let cfg = input_config("cam1", None, false);
    m.add_input(cfg, "rtmp://example/cam1", 1, 5).unwrap();
    let name = String::from("cam1");
    let n = m.input_config(&name).unwrap().video.zorder.unwrap();
    m.set_input_zorder(&name, n + 1, true).unwrap();
    assert_eq!(m.input_config(&name).unwrap().video.zorder, Some(n + 1));
    assert_eq!(m.input_video_peer(&name).unwrap().unwrap().zorder, n + 1);
}

#[test]
fn add_then_remove_restores_registry_and_container() {
    let mut m = Mixer::new();
    let nodes_before = m.pipeline.nodes.len();
    m.add_input(input_config("cam1", None, true), "rtmp://example/cam1", 1, 1).unwrap();
    assert!(m.pipeline.nodes.len() > nodes_before);
    m.remove_input(&String::from("cam1")).unwrap();
    assert_eq!(m.inputs.len(), 0);
    assert_eq!(m.pipeline.nodes.len(), nodes_before);
    assert!(matches!(m.input_config(&String::from("cam1")), Err(Error::NotFound)));
}

#[test]
fn remove_unknown_input_is_not_found() {
    let mut m = Mixer::new();
    assert!(matches!(m.remove_input(&String::from("ghost")), Err(Error::NotFound)));
}

#[test]
fn duplicate_input_name_is_refused() {
    let mut m = Mixer::new();
    m.add_input(input_config("cam1", None, false), "rtmp://a", 1, 1).unwrap();
    let r = m.add_input(input_config("cam1", None, false), "rtmp://b", 1, 2);
    assert!(matches!(r, Err(Error::Graph)));
    assert_eq!(m.inputs.len(), 1);
}

#[test]
fn attach_offset_is_negated_running_time() {
    let mut p = Pipeline::empty();
    let mut i = Input::create(input_config("cam1", None, false), "rtmp://a", 1).unwrap();
    i.link(&mut p, 1).unwrap();
    let r = i.handle_pad_added(StreamKind::Video, 5_000);
    assert_eq!(r, AttachOutcome::Linked);
    assert_eq!(i.video_attach, Some(-5_000));
    let r = i.handle_pad_added(StreamKind::Audio, 6_000);
    assert_eq!(r, AttachOutcome::Linked);
    assert_eq!(i.audio_attach, Some(-6_000));
}

#[test]
fn two_late_joiners_stay_running_time_aligned() {
    let mut p = Pipeline::empty();
    let mut a = Input::create(input_config("cam1", None, false), "rtmp://a", 1).unwrap();
    let mut b = Input::create(input_config("cam2", None, false), "rtmp://b", 1).unwrap();
    a.link(&mut p, 1).unwrap();
    b.link(&mut p, 2).unwrap();
    let t1: i64 = 1_000;
    let t2: i64 = 4_000;
    a.handle_pad_added(StreamKind::Video, t1);
    b.handle_pad_added(StreamKind::Video, t2);
    let oa = a.video_attach.unwrap();
    let ob = b.video_attach.unwrap();
    // at the attach moment each shows position zero: no fast-forward
    assert_eq!(t1 + oa, 0);
    assert_eq!(t2 + ob, 0);
    // paused at any shared moment the difference is the join gap, for every
    // later running time alike
    let r: i64 = 9_000;
    assert_eq!((r + oa) - (r + ob), t2 - t1);
}

#[test]
fn attach_twice_connects_once() {
    let mut p = Pipeline::empty();
    let mut i = Input::create(input_config("cam1", None, false), "rtmp://a", 1).unwrap();
    i.link(&mut p, 1).unwrap();
    assert_eq!(i.handle_pad_added(StreamKind::Video, 100), AttachOutcome::Linked);
    let snapshot = i.video_attach;
    assert_eq!(i.handle_pad_added(StreamKind::Video, 900), AttachOutcome::AlreadyLinked);
    assert_eq!(i.video_attach, snapshot);
    assert_eq!(i.handle_pad_added(StreamKind::Audio, 100), AttachOutcome::Linked);
    assert_eq!(i.handle_pad_added(StreamKind::Audio, 900), AttachOutcome::AlreadyLinked);
}

#[test]
fn attach_unknown_kind_is_ignored() {
    let mut p = Pipeline::empty();
    let mut i = Input::create(input_config("cam1", None, false), "rtmp://a", 1).unwrap();
    i.link(&mut p, 1).unwrap();
    assert_eq!(i.handle_pad_added(StreamKind::Other, 100), AttachOutcome::Ignored);
    assert_eq!(i.video_attach, None);
    assert_eq!(i.audio_attach, None);
}

#[test]
fn attach_after_unlink_is_ignored() {
    let mut p = Pipeline::empty();
    let mut i = Input::create(input_config("cam1", None, false), "rtmp://a", 1).unwrap();
    i.link(&mut p, 1).unwrap();
    i.unlink(&mut p).unwrap();
    assert_eq!(i.handle_pad_added(StreamKind::Video, 100), AttachOutcome::Ignored);
    assert_eq!(i.video_attach, None);
}

#[test]
fn attach_reapplies_stored_placement() {
    let mut p = Pipeline::empty();
    let mut cfg = input_config("cam1", Some(3), false);
    cfg.video.alpha = 500;
    cfg.video.xpos = 16;
    cfg.video.ypos = 9;
    cfg.video.repeat = true;
    let mut i = Input::create(cfg, "rtmp://a", 1).unwrap();
    i.link(&mut p, 3).unwrap();
    i.handle_pad_added(StreamKind::Video, 100);
    let peer = i.video_peer.unwrap();
    assert_eq!(peer.zorder, 3);
    assert_eq!(peer.alpha, 500);
    assert_eq!(peer.xpos, 16);
    assert_eq!(peer.ypos, 9);
    assert!(peer.repeat);
}

#[test]
fn removing_one_output_leaves_the_others_linked() {
    let mut m = Mixer::new();
    m.add_output(Output::create_rtmp(output_config("live", Some(Mux::Flv)), "rtmp://x").unwrap())
        .unwrap();
    m.add_output(Output::create_fake(output_config("probe", None)).unwrap()).unwrap();
    m.add_output(Output::create_file(output_config("tape", Some(Mux::Mkv)), "./a.mkv").unwrap())
        .unwrap();
    m.remove_output(&String::from("probe")).unwrap();
    assert_eq!(m.outputs.len(), 2);
    let names: Vec<String> = m.outputs.iter().map(|o| o.name()).collect();
    assert_eq!(names, vec![String::from("live"), String::from("tape")]);
    // every node the remaining destinations own still stands in the container
    let live_nodes = m
        .pipeline
        .nodes
        .iter()
        .filter(|n| n.kind == OwnerKind::Output && n.owner == "live")
        .count();
    let tape_nodes = m
        .pipeline
        .nodes
        .iter()
        .filter(|n| n.kind == OwnerKind::Output && n.owner == "tape")
        .count();
    let probe_nodes = m
        .pipeline
        .nodes
        .iter()
        .filter(|n| n.kind == OwnerKind::Output && n.owner == "probe")
        .count();
    assert_eq!(live_nodes, 6);
    assert_eq!(tape_nodes, 6);
    assert_eq!(probe_nodes, 0);
}

#[test]
fn recording_branch_has_fixed_codecs_and_derived_path() {
    let i = Input::create(
        input_config("cam1", None, true),
        "rtmp://a",
        1_699_999_999,
    )
    .unwrap();
    let rb = i.record.as_ref().unwrap();
    assert_eq!(rb.location, "./recordings/input_cam1_1699999999.mkv");
    assert_eq!(rb.config.name, "record_cam1");
    assert_eq!(rb.config.mux, Some(Mux::Mkv));
    assert_eq!(
        rb.config.encoder.audio.encoder,
        switcher::config::AudioEncoder::Vorbis
    );
    assert_eq!(rb.config.encoder.video.encoder, switcher::config::VideoEncoder::Vp9);
}

#[test]
fn recording_input_reaches_playing_and_null() {
    let mut m = Mixer::new();
    m.add_input(input_config("cam1", None, true), "rtmp://a", 42, 1).unwrap();
    m.set_state(PlayState::Playing).unwrap();
    assert_eq!(m.pipeline.state, PlayState::Playing);
    assert_eq!(m.inputs[0].state, PlayState::Playing);
    m.set_state(PlayState::Null).unwrap();
    assert_eq!(m.pipeline.state, PlayState::Null);
    assert_eq!(m.inputs[0].state, PlayState::Null);
    assert!(m.inputs[0].record.is_some());
}

#[test]
fn no_recording_branch_without_record_flag() {
    let i = Input::create(input_config("cam1", None, false), "rtmp://a", 1).unwrap();
    assert!(i.record.is_none());
}

#[test]
fn rtmp_and_file_outputs_require_a_mux() {
    assert!(matches!(
        Output::create_rtmp(output_config("live", None), "rtmp://x"),
        Err(Error::Graph)
    ));
    assert!(matches!(
        Output::create_file(output_config("tape", None), "./a.mkv"),
        Err(Error::Graph)
    ));
    assert!(Output::create_rtmp(output_config("live", Some(Mux::Flv)), "rtmp://x").is_ok());
}

#[test]
fn output_getters_follow_the_variant() {
    let live = Output::create_rtmp(output_config("live", Some(Mux::Flv)), "rtmp://x").unwrap();
    assert_eq!(live.name(), "live");
    assert_eq!(live.output_type(), "RTMP");
    assert_eq!(live.location(), "rtmp://x");
    let probe = Output::create_fake(output_config("probe", None)).unwrap();
    assert_eq!(probe.output_type(), "Fake");
    assert_eq!(probe.location(), "");
    let auto = Output::create_auto(output_config("screen", None)).unwrap();
    assert_eq!(auto.output_type(), "Auto");
    assert_eq!(auto.location(), "");
    let tape = Output::create_file(output_config("tape", Some(Mux::Mkv)), "./a.mkv").unwrap();
    assert_eq!(tape.output_type(), "File");
}

#[test]
fn remove_unknown_output_is_not_found() {
    let mut m = Mixer::new();
    assert!(matches!(m.remove_output(&String::from("ghost")), Err(Error::NotFound)));
}

#[test]
fn duplicate_output_name_is_refused() {
    let mut m = Mixer::new();
    m.add_output(Output::create_fake(output_config("probe", None)).unwrap()).unwrap();
    let r = m.add_output(Output::create_fake(output_config("probe", None)).unwrap());
    assert!(matches!(r, Err(Error::Graph)));
    assert_eq!(m.outputs.len(), 1);
}

#[test]
fn setter_on_unknown_input_is_not_found() {
    let mut m = Mixer::new();
    assert!(matches!(
        m.set_input_zorder(&String::from("ghost"), 1, true),
        Err(Error::NotFound)
    ));
    assert!(matches!(
        m.set_input_volume(&String::from("ghost"), 500, true),
        Err(Error::NotFound)
    ));
}

#[test]
fn placement_setter_without_peer_is_graph_error_but_stores() {
    // before link there is no compositor peer: the engine-facing half fails,
    // the stored record still takes the value
    let mut i = Input::create(input_config("cam1", None, false), "rtmp://a", 1).unwrap();
    assert!(matches!(i.set_xpos(50, true), Err(Error::Graph)));
    assert_eq!(i.config.video.xpos, 50);
    assert_eq!(i.video_peer, None);
}

#[test]
fn placement_setters_reach_the_compositor_peer() {
    let mut p = Pipeline::empty();
    let mut i = Input::create(input_config("cam1", None, false), "rtmp://a", 1).unwrap();
    i.link(&mut p, 4).unwrap();
    i.set_width(640, true).unwrap();
    i.set_height(360, false).unwrap();
    i.set_xpos(20, true).unwrap();
    i.set_ypos(40, true).unwrap();
    i.set_alpha(250, true).unwrap();
    let peer = i.video_peer.unwrap();
    assert_eq!(peer.width, 640);
    assert_eq!(peer.height, 360);
    assert_eq!(peer.xpos, 20);
    assert_eq!(peer.ypos, 40);
    assert_eq!(peer.alpha, 250);
    assert_eq!(i.config.video.width, 640);
    // height was propagated but not stored
    assert_eq!(i.config.video.height, 720);
    assert_eq!(i.config.video.alpha, 250);
}

#[test]
fn volume_setter_reaches_the_volume_node() {
    let mut i = Input::create(input_config("cam1", None, false), "rtmp://a", 1).unwrap();
    i.set_volume(300, false).unwrap();
    assert_eq!(i.volume_prop, 300);
    assert_eq!(i.config.audio.volume, 1000);
    i.set_volume(700, true).unwrap();
    assert_eq!(i.volume_prop, 700);
    assert_eq!(i.config.audio.volume, 700);
}

#[test]
fn mixer_state_reaches_every_linked_child() {
    let mut m = Mixer::new();
    m.add_input(input_config("cam1", None, false), "rtmp://a", 1, 1).unwrap();
    m.add_output(Output::create_fake(output_config("probe", None)).unwrap()).unwrap();
    m.set_state(PlayState::Paused).unwrap();
    assert_eq!(m.pipeline.state, PlayState::Paused);
    assert_eq!(m.inputs[0].state, PlayState::Paused);
    match &m.outputs[0] {
        Output::Fake(b) => assert_eq!(b.state, PlayState::Paused),
        _ => panic!("wrong variant"),
    }
    // a source linked after the transition is brought to the current state
    m.add_input(input_config("cam2", None, false), "rtmp://b", 1, 2).unwrap();
    assert_eq!(m.inputs[1].state, PlayState::Paused);
}

#[test]
fn mixer_setters_delegate_to_the_named_input() {
    let mut m = Mixer::new();
    m.add_input(input_config("cam1", None, false), "rtmp://a", 1, 1).unwrap();
    let name = String::from("cam1");
    m.set_input_width(&name, 640, true).unwrap();
    m.set_input_height(&name, 360, true).unwrap();
    m.set_input_xpos(&name, 8, true).unwrap();
    m.set_input_ypos(&name, 4, true).unwrap();
    m.set_input_alpha(&name, 750, true).unwrap();
    m.set_input_volume(&name, 250, true).unwrap();
    let c = m.input_config(&name).unwrap();
    assert_eq!(c.video.width, 640);
    assert_eq!(c.video.height, 360);
    assert_eq!(c.video.xpos, 8);
    assert_eq!(c.video.ypos, 4);
    assert_eq!(c.video.alpha, 750);
    assert_eq!(c.audio.volume, 250);
    let peer = m.input_video_peer(&name).unwrap().unwrap();
    assert_eq!(peer.width, 640);
    assert_eq!(peer.height, 360);
    assert_eq!(peer.xpos, 8);
    assert_eq!(peer.ypos, 4);
    assert_eq!(peer.alpha, 750);
}

#[test]
fn uri_source_carries_its_locator() {
    let i = switcher::input::URI::create(input_config("cam1", None, false), "rtmp://host/app", 1)
        .unwrap();
    assert_eq!(i.location, "rtmp://host/app");
}

#[test]
fn input_name_and_config_clone_out() {
    let i = Input::create(input_config("cam1", Some(1), false), "rtmp://a", 1).unwrap();
    assert_eq!(i.name(), "cam1");
    let c = i.config();
    assert_eq!(c.name, "cam1");
    assert_eq!(c.video.width, 1280);
    assert_eq!(c.video.height, 720);
}
