use wavy::channels::ChannelSet;
use wavy::hints::{devices, single_line, skipped, Hint};
use wavy::scheduler::{
    classify, is_supported_shape, Action, Fault, ResamplerState, ShapeChange, Stage, Transfer,
};
use wavy::session::{AudioDevice, TeardownCall};
use wavy::{AudioConfig, DefaultAudioConfig, Microphone, Speakers, SpeakersFinder};

fn hint(name: &str, ioid: Option<char>, desc: &str) -> Hint {
    Hint { name: name.to_string(), ioid, desc: desc.to_string() }
}

fn stereo_probe() -> [bool; 8] {
    [true, true, false, false, false, true, false, false]
}

/// Speakers configured for `channels` channels with a period of `period`
/// frames, started with `descriptors` descriptors, the first lease given back.
fn configured(channels: u8, period: u16, descriptors: usize) -> Speakers {
    let device = AudioDevice::new("Test".to_string(), ChannelSet::from_probes(stereo_probe()));
    let mut s = Speakers::from_device(device);
    assert_eq!(s.scheduler.poll(&vec![]), Action::StartReady);
    s.scheduler.device.start(Some(descriptors));
    assert_eq!(s.scheduler.shape_change(channels as usize), ShapeChange::Renegotiate);
    s.scheduler.apply_shape(channels, period, 48_000);
    let sink = s.play();
    s.release(sink);
    s
}

#[test]
fn enumeration_scenario_default_and_usb() {
    let hints = vec![
        hint("default", None, "Default Audio Device"),
        hint("sysdefault:Card0", None, "Card 0\nDefault"),
        hint("null", None, "Discard all samples"),
        hint("hw:Card1,0", Some('O'), "USB Audio"),
    ];
    let finder: SpeakersFinder = SpeakersFinder::new(AudioConfig);
    let cands = finder.candidates(&hints);
    let names: Vec<String> = cands.iter().map(|c| c.name.clone()).collect();
    assert_eq!(names, vec!["Default".to_string(), "USB Audio".to_string()]);
    assert_eq!(cands[0].hint, 0);
    assert_eq!(cands[1].hint, 3);
    let devs = devices(&cands, &vec![Some(stereo_probe()), Some(stereo_probe())]);
    assert_eq!(devs.len(), 2);
    assert_eq!(devs[0].name, "Default");
    assert_eq!(devs[1].name, "USB Audio");
    assert!(devs.iter().all(|d| !d.supported.is_empty()));
}

#[test]
fn enumeration_filters_by_direction() {
    let hints = vec![
        hint("hw:0", Some('I'), "Mic"),
        hint("hw:1", Some('O'), "Out"),
        hint("both", None, "Line\nIn and out"),
        hint("sysdefault", Some('I'), "x"),
        hint("null", Some('I'), "y"),
    ];
    let finder: wavy::MicrophoneFinder<DefaultAudioConfig> = wavy::MicrophoneFinder::new(AudioConfig);
    let cands = finder.candidates(&hints);
    let names: Vec<String> = cands.iter().map(|c| c.name.clone()).collect();
    assert_eq!(names, vec!["Mic".to_string(), "Line: In and out".to_string()]);
}

#[test]
fn unopened_devices_are_left_out() {
    let hints = vec![hint("a", None, "A"), hint("b", None, "B"), hint("c", None, "C")];
    let cands = wavy::hints::candidates(&hints, false);
    let devs = devices(&cands, &vec![None, Some(stereo_probe()), None]);
    assert_eq!(devs.len(), 1);
    assert_eq!(devs[0].name, "B");
    assert_eq!(devs[0].descriptors, 0);
    assert!(!devs[0].started);
}

#[test]
fn skipped_names() {
    assert!(skipped("sysdefault"));
    assert!(skipped("sysdefault:CARD=PCH"));
    assert!(skipped("null"));
    assert!(!skipped("nullx"));
    assert!(!skipped("sysdef"));
    assert!(!skipped("default"));
}

#[test]
fn descriptions_go_on_one_line() {
    assert_eq!(single_line("HDA Intel\nFront speakers"), "HDA Intel: Front speakers");
    assert_eq!(single_line("a\n\nb\n"), "a: : b: ");
    assert_eq!(single_line(""), "");
    assert_eq!(single_line("plain"), "plain");
}

#[test]
fn channel_sets() {
    let set = ChannelSet::from_probes(stereo_probe());
    assert!(set.contains(1));
    assert!(set.contains(2));
    assert!(!set.contains(3));
    assert!(set.contains(6));
    assert!(!set.contains(0));
    assert!(!set.contains(9));
    assert!(!set.is_empty());
    assert!(ChannelSet::from_probes([false; 8]).is_empty());
}

#[test]
fn error_codes_are_classified() {
    assert_eq!(classify(5), Transfer::Frames(5));
    assert_eq!(classify(0), Transfer::Frames(0));
    assert_eq!(classify(-11), Transfer::WouldBlock);
    assert_eq!(classify(-32), Transfer::Xrun);
    assert_eq!(classify(-86), Transfer::Suspended);
    assert_eq!(classify(-77), Transfer::Error(-77));
}

#[test]
fn only_mono_stereo_and_surround_shapes() {
    assert!(is_supported_shape(1));
    assert!(is_supported_shape(2));
    assert!(is_supported_shape(6));
    for c in [0usize, 3, 4, 5, 7, 8, 100] {
        assert!(!is_supported_shape(c));
    }
    let s = configured(2, 4, 1);
    assert_eq!(s.scheduler.shape_change(3), ShapeChange::Unsupported);
    assert_eq!(s.scheduler.shape_change(2), ShapeChange::Unchanged);
    assert_eq!(s.scheduler.shape_change(6), ShapeChange::Renegotiate);
}

#[test]
fn reshaping_resizes_the_buffer() {
    let mut s = configured(2, 4, 1);
    assert_eq!(s.scheduler.buffer.len(), 8);
    assert_eq!(s.scheduler.shape_change(6), ShapeChange::Renegotiate);
    s.scheduler.apply_shape(6, 5, 44_100);
    assert_eq!(s.scheduler.buffer.len(), 30);
    assert!(s.scheduler.buffer.iter().all(|&x| x == 0));
    assert_eq!(s.scheduler.sample_rate(), 44_100);
    assert_eq!(s.sample_rate(), 44_100);
    s.scheduler.apply_shape(1, 5, 44_100);
    assert_eq!(s.scheduler.buffer.len(), 5);
}

#[test]
fn first_poll_asks_for_a_shape_and_locks() {
    let device = AudioDevice::new("Mic".to_string(), ChannelSet::from_probes(stereo_probe()));
    let mut m = Microphone::from_device(device);
    assert!(m.scheduler.input);
    assert_eq!(m.scheduler.poll(&vec![false]), Action::StartReady);
    assert!(m.scheduler.locked);
}

#[test]
fn polling_with_a_live_lease_is_fatal() {
    let device = AudioDevice::new("Out".to_string(), ChannelSet::from_probes(stereo_probe()));
    let mut s = Speakers::from_device(device);
    assert_eq!(s.scheduler.sample_rate, None);
    assert_eq!(s.scheduler.period, 0);
    assert_eq!(s.scheduler.resampler.carry, [0; 6]);
    assert_eq!(s.scheduler.resampler.phase, 0);
    assert_eq!(s.scheduler.poll(&vec![]), Action::StartReady);
    assert_eq!(s.scheduler.poll(&vec![]), Action::Fatal(Fault::Reentrant));
    let mut s = configured(2, 4, 1);
    assert_eq!(s.scheduler.poll(&vec![false]), Action::Transfer);
    assert_eq!(s.scheduler.transferred(4), Action::Ready);
    assert_eq!(s.scheduler.poll(&vec![false]), Action::Fatal(Fault::Reentrant));
}

#[test]
fn would_block_registers_one_waker_per_descriptor() {
    let mut s = configured(2, 4, 2);
    assert_eq!(s.scheduler.poll(&vec![true, true]), Action::Pending);
    assert_eq!(s.scheduler.poll(&vec![true, false]), Action::Transfer);
    assert_eq!(s.scheduler.transferred(-11), Action::RegisterWakers(2));
    assert_eq!(s.scheduler.stage, Stage::Idle);
    assert!(!s.scheduler.locked);
    assert_eq!(s.scheduler.poll(&vec![false, false]), Action::Transfer);
    assert_eq!(s.scheduler.transferred(4), Action::Ready);
    assert!(s.scheduler.locked);
}

#[test]
fn without_descriptors_the_session_stays_pending() {
    let mut s = configured(1, 4, 0);
    assert_eq!(s.scheduler.poll(&vec![]), Action::Pending);
}

#[test]
fn underrun_recovers_with_one_retry() {
    let mut s = configured(2, 4, 1);
    assert_eq!(s.scheduler.poll(&vec![false]), Action::Transfer);
    assert_eq!(s.scheduler.transferred(-32), Action::QueryState);
    assert_eq!(s.scheduler.stream_state(true), Action::PrepareRetry);
    assert_eq!(s.scheduler.retried(4), Action::Ready);
    assert!(s.scheduler.locked);
}

#[test]
fn underrun_retry_failure_is_fatal() {
    let mut s = configured(2, 4, 1);
    assert_eq!(s.scheduler.poll(&vec![false]), Action::Transfer);
    assert_eq!(s.scheduler.transferred(-32), Action::QueryState);
    assert_eq!(s.scheduler.stream_state(true), Action::PrepareRetry);
    assert_eq!(s.scheduler.retried(-32), Action::Fatal(Fault::RecoveryFailed(-32)));
    assert!(!s.scheduler.locked);
}

#[test]
fn xrun_outside_the_xrun_state_is_fatal() {
    let mut s = configured(2, 4, 1);
    assert_eq!(s.scheduler.poll(&vec![false]), Action::Transfer);
    assert_eq!(s.scheduler.transferred(-32), Action::QueryState);
    assert_eq!(s.scheduler.stream_state(false), Action::Fatal(Fault::StreamState));
}

#[test]
fn suspended_stream_resumes_and_retries() {
    let mut s = configured(2, 4, 1);
    assert_eq!(s.scheduler.poll(&vec![false]), Action::Transfer);
    assert_eq!(s.scheduler.transferred(-86), Action::ResumePrepareRetry);
    assert_eq!(s.scheduler.stage, Stage::Retrying);
    assert_eq!(s.scheduler.retried(2), Action::Ready);
}

#[test]
fn other_native_errors_are_fatal() {
    let mut s = configured(2, 4, 1);
    assert_eq!(s.scheduler.poll(&vec![false]), Action::Transfer);
    assert_eq!(s.scheduler.transferred(-77), Action::Fatal(Fault::Native(-77)));
    assert_eq!(s.scheduler.poll(&vec![false]), Action::Transfer);
    assert_eq!(s.scheduler.transferred(5), Action::Fatal(Fault::Native(5)));
}

#[test]
fn transfer_shifts_the_buffer() {
    let mut s = configured(2, 4, 1);
    assert_eq!(s.scheduler.window_start(), 0);
    for i in 0..8 {
        s.scheduler.set_sample(i, i as u32 + 1);
    }
    assert_eq!(s.scheduler.poll(&vec![false]), Action::Transfer);
    assert_eq!(s.scheduler.transferred(3), Action::Ready);
    assert_eq!(s.scheduler.buffer, vec![7, 8, 0, 0, 0, 0, 0, 0]);
    assert_eq!(s.scheduler.starti, 1);
    assert_eq!(s.scheduler.window_start(), 2);
    assert_eq!(s.scheduler.sample(1), 8);
}

#[test]
fn resampler_state_carries_to_the_next_lease() {
    let mut s = configured(2, 4, 1);
    assert_eq!(s.scheduler.poll(&vec![false]), Action::Transfer);
    assert_eq!(s.scheduler.transferred(4), Action::Ready);
    let mut sink = s.play();
    assert!(s.scheduler.leased && s.scheduler.locked);
    assert_eq!(sink.lease.channels, 2);
    sink.lease.resampler = ResamplerState { carry: [1, 2, 3, 4, 5, 6], phase: 77 };
    s.release(sink);
    assert!(!s.scheduler.leased && !s.scheduler.locked);
    assert_eq!(s.scheduler.shape_change(6), ShapeChange::Renegotiate);
    s.scheduler.apply_shape(6, 4, 48_000);
    assert_eq!(s.scheduler.poll(&vec![false]), Action::Transfer);
    assert_eq!(s.scheduler.transferred(4), Action::Ready);
    let sink = s.play();
    assert_eq!(sink.lease.channels, 6);
    assert_eq!(s.scheduler.buffer.len(), 24);
    assert_eq!(sink.lease.resampler.carry, [1, 2, 3, 4, 5, 6]);
    assert_eq!(sink.lease.resampler.phase, 77);
}

#[test]
fn teardown_deregisters_then_frees_then_closes() {
    let mut d = AudioDevice::new("Out".to_string(), ChannelSet::from_probes(stereo_probe()));
    d.start(Some(3));
    assert!(d.started);
    assert_eq!(d.descriptors, 3);
    assert_eq!(
        d.teardown(),
        vec![
            TeardownCall::Deregister(0),
            TeardownCall::Deregister(1),
            TeardownCall::Deregister(2),
            TeardownCall::FreeParams,
            TeardownCall::Close,
        ]
    );
    let e = AudioDevice::new("In".to_string(), ChannelSet::from_probes(stereo_probe()));
    let s = Speakers::from_device(e);
    assert_eq!(s.scheduler.into_device().name, "In");
    let mut e = AudioDevice::new("In".to_string(), ChannelSet::from_probes(stereo_probe()));
    e.start(None);
    assert_eq!(e.descriptors, 0);
    assert_eq!(e.teardown(), vec![TeardownCall::FreeParams, TeardownCall::Close]);
}

#[test]
fn names_of_sessions() {
    let s = configured(2, 4, 1);
    assert_eq!(s.name(), "Test");
    assert!(s.channels().contains(2));
    assert_eq!(wavy::DEFAULT_SAMPLE_RATE, 48_000);
    let d = Speakers::default_device(ChannelSet::from_probes(stereo_probe()));
    assert_eq!(d.name(), "Default");
    assert!(d.channels().contains(6));
    let m = Microphone::from_device(AudioDevice::new("Mic".to_string(), ChannelSet::from_probes([true; 8])));
    assert_eq!(m.name(), "Mic");
    assert!(m.channels().contains(8));
    wavy::spawn_audio_task(|| async {});
}

#[test]
fn microphone_lease_round_trip() {
    let device = AudioDevice::new("Mic".to_string(), ChannelSet::from_probes(stereo_probe()));
    let mut m = Microphone::from_device(device);
    assert_eq!(m.scheduler.poll(&vec![]), Action::StartReady);
    m.scheduler.device.start(Some(1));
    m.scheduler.apply_shape(1, 3, 16_000);
    assert_eq!(m.sample_rate(), 16_000);
    let mut stream = m.record();
    assert!(m.scheduler.leased);
    assert_eq!(stream.lease.channels, 1);
    assert_eq!(stream.lease.resampler.phase, 0);
    stream.lease.resampler.phase = 5;
    m.release(stream);
    assert!(!m.scheduler.locked);
    assert_eq!(m.scheduler.resampler.phase, 5);
    assert_eq!(m.scheduler.poll(&vec![false]), Action::Transfer);
    assert_eq!(m.scheduler.transferred(1), Action::Ready);
    assert_eq!(m.scheduler.buffer.len(), 3);
    assert_eq!(m.scheduler.window_start(), 2);
}
