use odyssey::api_objects::{
    DisplayTest, FileMetadata, LocationCategory, PhysicalState, PrintMetadata, PrinterState,
    PrinterStatus,
};
use odyssey::configuration::{
    ApiConfig, Configuration, DisplayConfig, GcodeConfig, PrinterConfig,
};
use odyssey::gcode::{Command, Gcode};
use odyssey::printer::{Directive, Event, Job, Operation, Phase, Printer, Stage, Step};

fn configuration() -> Configuration {
    Configuration {
        printer: PrinterConfig {
            serial: String::from("/dev/null"),
            baudrate: 250000,
            max_z: 300000,
            default_lift: 5000,
            default_up_speed: 3000,
            default_down_speed: 3000,
            default_wait_before_exposure: 1000,
            default_wait_after_exposure: 500,
            pause_lift: 100000,
        },
        gcode: GcodeConfig {
            boot: String::from("G90"),
            shutdown: String::from("M84"),
            home_command: String::from("HOME_AXIS"),
            move_command: String::from("MOVE_PLATE Z={z} F={speed}"),
            print_start: String::from("START_GCODE TOTAL_LAYERS={total_layers}"),
            print_end: String::from("END_GCODE MAX={max_z} LIFT={z_lift}"),
            layer_start: String::from("LAYER_START_GCODE LAYER={layer}"),
            cure_start: String::from("START_CURE"),
            cure_end: String::from("END_CURE"),
            move_sync: String::from("MOVE COMPLETE RESPONSE"),
            move_timeout: 5,
            status_check: String::from("STATUS_GCODE"),
            status_desired: String::from("READY STATUS RESPONSE"),
        },
        api: ApiConfig {
            upload_path: String::from("uploads"),
            usb_glob: String::from("uploads"),
            port: 12357,
        },
        display: DisplayConfig {
            frame_buffer: "/dev/null".to_owned(),
            bit_depth: vec![5, 6, 5],
            screen_width: 1920,
            screen_height: 1080,
        },
    }
}

fn file_data() -> FileMetadata {
    FileMetadata {
        path: "cube.sl1".to_string(),
        name: "cube.sl1".to_string(),
        last_modified: None,
        file_size: None,
        location_category: LocationCategory::Local,
        parent_path: "uploads".to_string(),
    }
}

fn job(layer_count: usize, layer_height_microns: u32) -> Job {
    Job {
        metadata: PrintMetadata {
            file_data: file_data(),
            used_material: 0,
            print_time: 0,
            layer_height_microns,
            layer_count,
        },
        lift: None,
        up_speed: None,
        down_speed: None,
        wait_before_exposure: None,
        wait_after_exposure: None,
    }
}

fn printer() -> Printer<Gcode> {
    let configuration = configuration();
    Printer::start_printer(configuration.printer.clone(), Gcode::new(configuration))
}

/// What a step asks for, in short.
fn brief(step: &Step) -> String {
    let ask = match &step.directive {
        Directive::Poll => "poll".to_string(),
        Directive::Send { request, .. } => format!("send {}", request.line.trim_end()),
        Directive::Sleep(ms) => format!("sleep {}", ms),
        Directive::LoadJob(file) => format!("load {}", file.name),
        Directive::Fetch(layer) => format!("fetch {}", layer),
        Directive::Prefetch(layer) => format!("prefetch {}", layer),
        Directive::Collect => "collect".to_string(),
        Directive::Display => "display".to_string(),
        Directive::DisplayTest(test) => format!("test {:?}", test),
        Directive::DisplayLayer { file_data, layer } => {
            format!("show {} {}", file_data.name, layer)
        }
        Directive::Fail(e) => format!("fail {}", e.name),
        Directive::Exit => "exit".to_string(),
        Directive::Wait => "wait".to_string(),
    };
    if step.publish {
        format!("{} +publish", ask)
    } else {
        ask
    }
}

fn run(printer: &mut Printer<Gcode>, events: Vec<Event>) -> Vec<String> {
    events.into_iter().map(|event| brief(&printer.step(event))).collect()
}

/// Brings a new printer to the idle state.
fn idle() -> Printer<Gcode> {
    let mut printer = printer();
    let steps = run(
        &mut printer,
        vec![Event::Operation(None), Event::Completed(true), Event::Completed(true)],
    );
    assert_eq!(steps, vec!["send STATUS_GCODE", "send G90", "poll +publish"]);
    printer
}

/// Brings an idle printer to the poll before the first layer of `job`, whose
/// first frame has the exposure `exposure`.
fn printing(job: Job, exposure: Option<u64>) -> Printer<Gcode> {
    let mut printer = idle();
    let count = job.metadata.layer_count;
    let steps = run(
        &mut printer,
        vec![
            Event::Operation(Some(Operation::StartPrint { file_data: file_data() })),
            Event::JobLoaded(Some(job)),
            Event::Completed(true),
            Event::FrameLoaded(exposure),
        ],
    );
    assert_eq!(
        steps,
        vec![
            "load cube.sl1".to_string(),
            format!("send START_GCODE TOTAL_LAYERS={}", count),
            "fetch 0 +publish".to_string(),
            "poll".to_string(),
        ]
    );
    printer
}

fn layer_events(next: Option<u64>) -> Vec<Event> {
    vec![
        Event::Operation(None),
        Event::Done,
        Event::Completed(true),
        Event::Completed(true),
        Event::Completed(true),
        Event::Done,
        Event::Done,
        Event::Completed(true),
        Event::Done,
        Event::Completed(true),
        Event::Done,
        Event::FrameLoaded(next),
    ]
}

#[test]
fn a_new_printer_is_shut_down_and_polls() {
    let mut printer = printer();
    assert_eq!(printer.state.status(), PrinterStatus::Shutdown);
    assert_eq!(printer.phase, Phase::Polling);
    assert_eq!(
        printer.state.physical(),
        PhysicalState { z_microns: u32::MAX, curing: false }
    );
    assert_eq!(brief(&printer.start_statemachine()), "poll");
    let substitutions = &printer.hardware_controller.gcode_substitutions;
    assert_eq!(substitutions.get(&"max_z".to_string()), Some(&"300".to_string()));
    assert_eq!(substitutions.get(&"z_lift".to_string()), Some(&"5".to_string()));
}

#[test]
fn a_printer_that_is_shut_down_boots_once_the_controller_is_ready() {
    let mut printer = printer();
    let steps = run(
        &mut printer,
        vec![
            Event::Operation(None),
            Event::Completed(false),
            Event::Done,
            Event::Operation(None),
            Event::Completed(true),
            Event::Completed(true),
        ],
    );
    assert_eq!(
        steps,
        vec![
            "send STATUS_GCODE",
            "sleep 10000",
            "poll",
            "send STATUS_GCODE",
            "send G90",
            "poll +publish",
        ]
    );
    assert_eq!(printer.state.status(), PrinterStatus::Idle);
    assert_eq!(printer.state.physical(), PhysicalState { z_microns: 0, curing: false });
}

#[test]
fn a_printer_that_is_shut_down_drops_every_operation_but_the_query() {
    let mut printer = printer();
    let steps = run(
        &mut printer,
        vec![
            Event::Operation(Some(Operation::StartPrint { file_data: file_data() })),
            Event::Operation(Some(Operation::ManualMove { z: 1000 })),
            Event::Operation(Some(Operation::ManualHome)),
            Event::Operation(Some(Operation::Shutdown)),
            Event::Operation(Some(Operation::QueryState)),
        ],
    );
    assert_eq!(steps, vec!["poll", "poll", "poll", "poll", "poll +publish"]);
    assert_eq!(printer.state.status(), PrinterStatus::Shutdown);
}

#[test]
fn an_idle_printer_carries_out_manual_operations() {
    let mut printer = idle();
    let steps = run(
        &mut printer,
        vec![
            Event::Operation(Some(Operation::ManualHome)),
            Event::Completed(true),
            Event::Operation(Some(Operation::ManualMove { z: 12500 })),
            Event::Completed(true),
            Event::Operation(Some(Operation::ManualCure { cure: true })),
            Event::Completed(true),
            Event::Operation(Some(Operation::QueryState)),
            Event::Operation(Some(Operation::ManualCure { cure: false })),
            Event::Completed(true),
            Event::Operation(Some(Operation::ManualCommand { command: "M117 {z}".to_string() })),
            Event::Completed(true),
            Event::Operation(Some(Operation::ManualDisplayTest { test: DisplayTest::White })),
            Event::Done,
            Event::Operation(Some(Operation::ManualDisplayLayer {
                file_data: file_data(),
                layer: 7,
            })),
            Event::Done,
            Event::Operation(None),
            Event::Done,
        ],
    );
    assert_eq!(
        steps,
        vec![
            "send HOME_AXIS",
            "poll +publish",
            "send MOVE_PLATE Z=12.5 F=180",
            "poll +publish",
            "send START_CURE",
            "poll +publish",
            "poll +publish",
            "send END_CURE",
            "poll +publish",
            "send M117 12.5",
            "poll +publish",
            "test White",
            "poll",
            "show cube.sl1 7",
            "poll",
            "sleep 1000",
            "poll",
        ]
    );
    assert_eq!(printer.state.status(), PrinterStatus::Idle);
    assert_eq!(printer.state.physical(), PhysicalState { z_microns: 12500, curing: false });
}

#[test]
fn the_published_state_shows_the_light_between_cure_on_and_cure_off() {
    let mut printer = idle();
    printer.step(Event::Operation(Some(Operation::ManualCure { cure: true })));
    // the command is under way: nothing is published yet
    assert!(!printer.state.physical().curing);
    assert!(printer.step(Event::Completed(true)).publish);
    assert!(printer.state.physical().curing);
    assert!(printer.step(Event::Operation(Some(Operation::QueryState))).publish);
    assert!(printer.state.physical().curing);
    printer.step(Event::Operation(Some(Operation::ManualCure { cure: false })));
    assert!(printer.step(Event::Completed(true)).publish);
    assert!(!printer.state.physical().curing);
}

#[test]
fn an_idle_printer_ignores_what_belongs_to_a_job() {
    let mut printer = idle();
    let steps = run(
        &mut printer,
        vec![
            Event::Operation(Some(Operation::StopPrint)),
            Event::Operation(Some(Operation::PausePrint)),
            Event::Operation(Some(Operation::ResumePrint)),
        ],
    );
    assert_eq!(steps, vec!["poll", "poll", "poll"]);
    assert_eq!(printer.state.status(), PrinterStatus::Idle);
}

#[test]
fn a_single_layer_is_printed_step_by_step() {
    // layers of 0.05 mm, exposure 4 s, lift 5 mm, 3 mm/s up and down,
    // rests of 1 s and 0.5 s
    let mut printer = printing(job(1, 50), Some(4000));
    assert_eq!(printer.state.status(), PrinterStatus::Printing);
    assert_eq!(printer.state.layer(), Some(0));
    assert_eq!(printer.state.paused(), Some(false));
    let mut events = layer_events(None);
    events.push(Event::Operation(None));
    events.push(Event::Completed(true));
    let steps = run(&mut printer, events);
    assert_eq!(
        steps,
        vec![
            "prefetch 1",
            "send LAYER_START_GCODE LAYER=0",
            "send MOVE_PLATE Z=5.05 F=180 +publish",
            "send MOVE_PLATE Z=0.05 F=180 +publish",
            "sleep 1000 +publish",
            "display",
            "send START_CURE",
            "sleep 4000 +publish",
            "send END_CURE",
            "sleep 500 +publish",
            "collect",
            "poll +publish",
            "send END_GCODE MAX=300 LIFT=5",
            "poll +publish",
        ]
    );
    assert_eq!(printer.state.status(), PrinterStatus::Idle);
    assert_eq!(printer.state.physical(), PhysicalState { z_microns: 50, curing: false });
    let substitutions = &printer.hardware_controller.gcode_substitutions;
    assert_eq!(substitutions.get(&"total_layers".to_string()), None);
    assert_eq!(substitutions.get(&"layer".to_string()), None);
}

#[test]
fn the_moves_of_a_layer_go_to_its_top_and_the_lift_above_it() {
    // layers of 50 mm: the first layer's top is at 50000 microns
    let mut printer = printing(job(1, 50000), Some(4000));
    let steps = run(&mut printer, layer_events(None));
    assert_eq!(steps[2], "send MOVE_PLATE Z=55 F=180 +publish");
    assert_eq!(steps[3], "send MOVE_PLATE Z=50 F=180 +publish");
    assert_eq!(printer.state.physical().z_microns, 50000);
}

#[test]
fn the_commands_of_a_layer_come_in_their_order() {
    let mut printer = printing(job(200, 50), Some(2000));
    // print 100 layers, then look at layer 100
    for _ in 0..100 {
        run(&mut printer, layer_events(Some(2000)));
    }
    assert_eq!(printer.state.layer(), Some(100));
    let mut commands = Vec::new();
    for event in layer_events(Some(2000)) {
        if let Directive::Send { command, .. } = printer.step(event).directive {
            commands.push(command);
        }
    }
    assert_eq!(commands.len(), 5);
    assert!(matches!(commands[0], Command::StartLayer(100)));
    assert!(matches!(commands[1], Command::MoveZ { z: 10050, speed: 3000 }));
    assert!(matches!(commands[2], Command::MoveZ { z: 5050, speed: 3000 }));
    assert!(matches!(commands[3], Command::StartCure));
    assert!(matches!(commands[4], Command::StopCure));
    assert_eq!(printer.state.layer(), Some(101));
}

#[test]
fn the_light_is_shown_on_only_during_the_exposure() {
    let mut printer = printing(job(2, 50), Some(4000));
    let mut shown = Vec::new();
    for event in layer_events(Some(4000)) {
        let step = printer.step(event);
        if step.publish {
            shown.push((printer.phase, printer.state.physical().curing));
        }
    }
    assert_eq!(
        shown,
        vec![
            (Phase::Layer(Stage::Lift), false),
            (Phase::Layer(Stage::Seat), false),
            (Phase::Layer(Stage::WaitBefore), false),
            (Phase::Layer(Stage::Expose), true),
            (Phase::Layer(Stage::WaitAfter), false),
            (Phase::Polling, false),
        ]
    );
}

#[test]
fn the_settings_of_the_job_take_the_place_of_the_defaults() {
    let mut custom = job(1, 100);
    custom.lift = Some(2000);
    custom.up_speed = Some(1000);
    custom.down_speed = Some(500);
    custom.wait_before_exposure = Some(10);
    custom.wait_after_exposure = Some(20);
    let mut printer = printing(custom, Some(30));
    let steps = run(&mut printer, layer_events(None));
    assert_eq!(steps[2], "send MOVE_PLATE Z=2.1 F=60 +publish");
    assert_eq!(steps[3], "send MOVE_PLATE Z=0.1 F=30 +publish");
    assert_eq!(steps[4], "sleep 10 +publish");
    assert_eq!(steps[7], "sleep 30 +publish");
    assert_eq!(steps[9], "sleep 20 +publish");
}

#[test]
fn a_job_goes_on_until_its_frames_run_out() {
    let mut printer = printing(job(3, 50), Some(20000));
    run(&mut printer, layer_events(Some(14000)));
    assert_eq!(printer.state.layer(), Some(1));
    let steps = run(&mut printer, layer_events(Some(8000)));
    assert_eq!(steps[0], "prefetch 2");
    assert_eq!(steps[1], "send LAYER_START_GCODE LAYER=1");
    assert_eq!(steps[2], "send MOVE_PLATE Z=5.1 F=180 +publish");
    assert_eq!(steps[7], "sleep 14000 +publish");
    // the driver has a frame too many: the job has no layer 3
    let steps = run(&mut printer, layer_events(Some(2000)));
    assert_eq!(steps[7], "sleep 8000 +publish");
    assert_eq!(printer.state.layer(), Some(3));
    assert_eq!(printer.exposure, None);
    let steps = run(&mut printer, vec![Event::Operation(None), Event::Completed(true)]);
    assert_eq!(steps, vec!["send END_GCODE MAX=300 LIFT=5", "poll +publish"]);
    assert_eq!(printer.state.status(), PrinterStatus::Idle);
}

#[test]
fn a_layer_that_is_missing_ends_the_job() {
    let mut printer = printing(job(10, 50), Some(1000));
    run(&mut printer, layer_events(None));
    assert_eq!(printer.state.layer(), Some(1));
    let steps = run(&mut printer, vec![Event::Operation(None), Event::Completed(true)]);
    assert_eq!(steps, vec!["send END_GCODE MAX=300 LIFT=5", "poll +publish"]);
    assert_eq!(printer.state.status(), PrinterStatus::Idle);
}

#[test]
fn a_job_without_a_first_frame_ends_at_once() {
    let mut printer = printing(job(0, 50), Some(1000));
    assert_eq!(printer.exposure, None);
    let steps = run(&mut printer, vec![Event::Operation(None), Event::Completed(true)]);
    assert_eq!(steps, vec!["send END_GCODE MAX=300 LIFT=5", "poll +publish"]);
}

#[test]
fn a_file_that_cannot_be_read_leaves_the_printer_idle() {
    let mut printer = idle();
    let steps = run(
        &mut printer,
        vec![
            Event::Operation(Some(Operation::StartPrint { file_data: file_data() })),
            Event::JobLoaded(None),
        ],
    );
    assert_eq!(steps, vec!["load cube.sl1", "poll"]);
    assert_eq!(printer.state.status(), PrinterStatus::Idle);
}

#[test]
fn a_job_that_would_go_above_the_greatest_height_is_refused() {
    let mut printer = idle();
    let steps = run(
        &mut printer,
        vec![
            Event::Operation(Some(Operation::StartPrint { file_data: file_data() })),
            Event::JobLoaded(Some(job(usize::MAX, 50))),
            Event::Operation(Some(Operation::StartPrint { file_data: file_data() })),
            Event::JobLoaded(Some(job(2, u32::MAX / 2))),
            Event::Operation(Some(Operation::StartPrint { file_data: file_data() })),
            // the last layer's top is at the greatest height: no room for the lift
            Event::JobLoaded(Some(job(100, 3000))),
        ],
    );
    assert_eq!(
        steps,
        vec!["load cube.sl1", "poll", "load cube.sl1", "poll", "load cube.sl1", "poll"]
    );
    assert_eq!(printer.state.status(), PrinterStatus::Idle);
    assert!(!job(2, u32::MAX / 2).is_valid(&configuration().printer));
    assert!(job(1, 295000).is_valid(&configuration().printer));
    assert!(!job(1, 295001).is_valid(&configuration().printer));
    assert!(job(59, 5000).is_valid(&configuration().printer));
    assert!(!job(60, 5000).is_valid(&configuration().printer));
    assert!(job(usize::MAX, 0).is_valid(&configuration().printer));
    let mut low = job(60, 5000);
    low.lift = Some(0);
    assert!(low.is_valid(&configuration().printer));
}

#[test]
fn a_manual_move_is_cut_down_to_the_greatest_height() {
    let mut printer = idle();
    let steps = run(
        &mut printer,
        vec![
            Event::Operation(Some(Operation::ManualMove { z: 300000 })),
            Event::Completed(true),
            Event::Operation(Some(Operation::ManualMove { z: 300001 })),
            Event::Completed(true),
            Event::Operation(Some(Operation::ManualMove { z: u32::MAX })),
            Event::Completed(true),
        ],
    );
    assert_eq!(
        steps,
        vec![
            "send MOVE_PLATE Z=300 F=180",
            "poll +publish",
            "send MOVE_PLATE Z=300 F=180",
            "poll +publish",
            "send MOVE_PLATE Z=300 F=180",
            "poll +publish",
        ]
    );
    assert_eq!(printer.state.physical().z_microns, 300000);
    assert_eq!(printer.hardware_controller.get_physical_state().z_microns, 300000);
}

#[test]
fn a_jog_of_a_paused_job_is_cut_down_to_the_greatest_height() {
    let mut printer = printing(job(2, 50), Some(1000));
    let steps = run(
        &mut printer,
        vec![
            Event::Operation(Some(Operation::PausePrint)),
            Event::Completed(true),
            Event::Operation(Some(Operation::ManualMove { z: 300001 })),
            Event::Completed(true),
            Event::Operation(Some(Operation::ManualMove { z: u32::MAX })),
            Event::Completed(true),
            Event::Operation(Some(Operation::ManualMove { z: 0 })),
            Event::Completed(true),
        ],
    );
    assert_eq!(
        steps,
        vec![
            "send MOVE_PLATE Z=100 F=180 +publish",
            "poll +publish",
            "send MOVE_PLATE Z=300 F=180",
            "poll +publish",
            "send MOVE_PLATE Z=300 F=180",
            "poll +publish",
            "send MOVE_PLATE Z=0.05 F=180",
            "poll +publish",
        ]
    );
}

#[test]
fn a_second_job_is_not_started_while_one_runs() {
    let mut printer = printing(job(2, 50), Some(1000));
    let steps = run(
        &mut printer,
        vec![
            Event::Operation(Some(Operation::StartPrint { file_data: file_data() })),
            Event::Operation(Some(Operation::ManualHome)),
            Event::Operation(Some(Operation::ManualCure { cure: true })),
            Event::Operation(Some(Operation::ManualMove { z: 7 })),
        ],
    );
    assert_eq!(steps, vec!["poll", "poll", "poll", "poll"]);
    assert_eq!(printer.state.status(), PrinterStatus::Printing);
    assert_eq!(printer.state.layer(), Some(0));
}

#[test]
fn a_pause_lifts_the_plate_and_a_jog_stays_above_the_layer() {
    let mut printer = printing(job(200, 50), Some(2000));
    for _ in 0..100 {
        run(&mut printer, layer_events(Some(2000)));
    }
    // layer 100 is next; the plate is at the top of layer 99
    assert_eq!(printer.state.physical().z_microns, 5000);
    let steps = run(
        &mut printer,
        vec![
            Event::Operation(Some(Operation::PausePrint)),
            Event::Completed(true),
            Event::Operation(None),
            Event::Done,
            Event::Operation(None),
            Event::Done,
            Event::Operation(Some(Operation::QueryState)),
            // up by half a millimetre
            Event::Operation(Some(Operation::ManualMove { z: 105500 })),
            Event::Completed(true),
            // below the top of layer 100, which is at 5.05 mm
            Event::Operation(Some(Operation::ManualMove { z: 1000 })),
            Event::Completed(true),
            Event::Operation(Some(Operation::ResumePrint)),
        ],
    );
    assert_eq!(
        steps,
        vec![
            "send MOVE_PLATE Z=105 F=180 +publish",
            "poll +publish",
            "sleep 100",
            "poll",
            "sleep 100",
            "poll",
            "poll +publish",
            "send MOVE_PLATE Z=105.5 F=180",
            "poll +publish",
            "send MOVE_PLATE Z=5.05 F=180",
            "poll +publish",
            "poll +publish",
        ]
    );
    assert_eq!(printer.state.paused(), Some(false));
    assert_eq!(printer.state.layer(), Some(100));
    // the next layer goes on as usual
    let steps = run(&mut printer, layer_events(Some(2000)));
    assert_eq!(steps[1], "send LAYER_START_GCODE LAYER=100");
    assert_eq!(steps[2], "send MOVE_PLATE Z=10.05 F=180 +publish");
    assert_eq!(steps[3], "send MOVE_PLATE Z=5.05 F=180 +publish");
    assert_eq!(printer.state.layer(), Some(101));
}

#[test]
fn a_pause_never_lifts_above_the_greatest_height() {
    let mut printer = idle();
    run(
        &mut printer,
        vec![Event::Operation(Some(Operation::ManualMove { z: 250000 })), Event::Completed(true)],
    );
    run(
        &mut printer,
        vec![
            Event::Operation(Some(Operation::StartPrint { file_data: file_data() })),
            Event::JobLoaded(Some(job(2, 50))),
            Event::Completed(true),
            Event::FrameLoaded(Some(1000)),
        ],
    );
    let steps = run(
        &mut printer,
        vec![Event::Operation(Some(Operation::PausePrint)), Event::Completed(true)],
    );
    assert_eq!(steps, vec!["send MOVE_PLATE Z=300 F=180 +publish", "poll +publish"]);
    assert_eq!(printer.state.physical().z_microns, 300000);
    assert_eq!(printer.state.paused(), Some(true));
}

#[test]
fn a_paused_job_sends_nothing_of_its_own() {
    let mut printer = printing(job(2, 50), Some(1000));
    run(
        &mut printer,
        vec![Event::Operation(Some(Operation::PausePrint)), Event::Completed(true)],
    );
    for _ in 0..20 {
        let step = printer.step(Event::Operation(None));
        assert!(matches!(step.directive, Directive::Sleep(100)));
        let step = printer.step(Event::Done);
        assert!(matches!(step.directive, Directive::Poll));
        assert_eq!(printer.state.paused(), Some(true));
    }
}

#[test]
fn a_job_is_stopped_at_the_operator_s_word() {
    let mut printer = printing(job(2, 50), Some(1000));
    let steps = run(&mut printer, vec![Event::Operation(Some(Operation::StopPrint))]);
    assert_eq!(steps, vec!["poll +publish"]);
    assert_eq!(printer.state.status(), PrinterStatus::Idle);
    assert_eq!(printer.exposure, None);
    let steps = run(&mut printer, vec![Event::Operation(None)]);
    assert_eq!(steps, vec!["sleep 1000"]);
}

#[test]
fn a_move_that_times_out_shuts_the_printer_down() {
    let mut printer = printing(job(2, 50), Some(1000));
    let steps = run(
        &mut printer,
        vec![
            Event::Operation(None),
            Event::Done,
            Event::Completed(true),
            // the lift is not reported complete in time
            Event::Completed(false),
            Event::Completed(true),
        ],
    );
    assert_eq!(
        steps,
        vec![
            "prefetch 1",
            "send LAYER_START_GCODE LAYER=0",
            "send MOVE_PLATE Z=5.05 F=180 +publish",
            "send M84",
            "poll +publish",
        ]
    );
    assert!(matches!(printer.state, PrinterState::Shutdown));
    assert_eq!(
        printer.state.physical(),
        PhysicalState { z_microns: u32::MAX, curing: false }
    );
    assert_eq!(printer.state.layer(), None);
    assert_eq!(printer.state.paused(), None);
    // the move asked for five seconds of polls
    let mut fresh = idle();
    match fresh.step(Event::Operation(Some(Operation::ManualMove { z: 1 }))).directive {
        Directive::Send { request, .. } => assert_eq!(request.polls, 50),
        other => panic!("{:?}", other),
    }
}

#[test]
fn the_shutdown_command_is_sent_even_to_a_controller_that_is_silent() {
    let mut printer = idle();
    let steps = run(
        &mut printer,
        vec![
            Event::Operation(Some(Operation::ManualHome)),
            Event::Completed(false),
            Event::Completed(false),
        ],
    );
    assert_eq!(steps, vec!["send HOME_AXIS", "send M84", "poll +publish"]);
    assert_eq!(printer.state.status(), PrinterStatus::Shutdown);
}

#[test]
fn a_shutdown_command_that_fails_still_shuts_down() {
    let mut printer = idle();
    let steps = run(
        &mut printer,
        vec![Event::Operation(Some(Operation::Shutdown)), Event::Completed(false)],
    );
    assert_eq!(steps, vec!["send M84", "poll +publish"]);
    assert_eq!(printer.state.status(), PrinterStatus::Shutdown);
    let mut printer = idle();
    let steps = run(
        &mut printer,
        vec![Event::Operation(Some(Operation::Shutdown)), Event::Completed(true)],
    );
    assert_eq!(steps, vec!["send M84", "poll +publish"]);
    assert_eq!(printer.state.status(), PrinterStatus::Shutdown);
}

#[test]
fn every_failure_of_a_command_leads_to_shutdown() {
    for failing in [1usize, 2, 3, 6, 8] {
        let mut printer = printing(job(2, 50), Some(1000));
        let mut events = layer_events(Some(1000));
        events.truncate(failing + 1);
        run(&mut printer, events);
        let steps = run(&mut printer, vec![Event::Completed(false), Event::Completed(true)]);
        assert_eq!(steps, vec!["send M84", "poll +publish"]);
        assert_eq!(printer.state.status(), PrinterStatus::Shutdown);
    }
    let mut printer = printing(job(0, 50), None);
    let steps = run(
        &mut printer,
        vec![Event::Operation(None), Event::Completed(false), Event::Completed(false)],
    );
    assert_eq!(steps, vec!["send END_GCODE MAX=300 LIFT=5", "send M84", "poll +publish"]);
}

#[test]
fn cancellation_shuts_down_and_ends_the_machine() {
    let mut printer = idle();
    let steps = run(
        &mut printer,
        vec![Event::Cancelled, Event::Completed(true), Event::Operation(None), Event::Done],
    );
    assert_eq!(steps, vec!["send M84", "exit +publish", "exit", "exit"]);
    assert_eq!(printer.state.status(), PrinterStatus::Shutdown);
    assert_eq!(printer.phase, Phase::Finished);
    let mut down = self::printer();
    assert_eq!(run(&mut down, vec![Event::Cancelled]), vec!["exit"]);
    let mut resting = idle();
    let steps = run(&mut resting, vec![Event::Operation(None), Event::Cancelled]);
    assert_eq!(steps, vec!["sleep 1000", "send M84"]);
}

#[test]
fn cancellation_during_a_layer_waits_until_the_light_is_off() {
    let mut printer = printing(job(2, 50), Some(1000));
    let mut events = layer_events(Some(1000));
    events.truncate(8);
    run(&mut printer, events);
    assert_eq!(printer.phase, Phase::Layer(Stage::Expose));
    // the exposure is not cut short
    assert_eq!(run(&mut printer, vec![Event::Cancelled]), vec!["wait"]);
    assert_eq!(printer.phase, Phase::Layer(Stage::Expose));
    let steps = run(
        &mut printer,
        vec![
            Event::Done,
            Event::Completed(true),
            Event::Done,
            Event::FrameLoaded(Some(1000)),
            Event::Cancelled,
        ],
    );
    assert_eq!(
        steps,
        vec!["send END_CURE", "sleep 500 +publish", "collect", "poll +publish", "send M84"]
    );
}

#[test]
fn an_event_that_is_not_awaited_changes_nothing() {
    let mut printer = idle();
    let steps = run(
        &mut printer,
        vec![Event::Completed(true), Event::Done, Event::FrameLoaded(Some(1)), Event::JobLoaded(None)],
    );
    assert_eq!(steps, vec!["wait", "wait", "wait", "wait"]);
    assert_eq!(printer.phase, Phase::Polling);
    printer.step(Event::Operation(Some(Operation::ManualHome)));
    let steps = run(
        &mut printer,
        vec![Event::Operation(Some(Operation::ManualHome)), Event::Done, Event::Cancelled],
    );
    assert_eq!(steps, vec!["wait", "wait", "wait"]);
    assert_eq!(printer.phase, Phase::Commanding);
}

#[test]
fn a_template_without_a_value_ends_the_machine() {
    let mut printer = idle();
    let steps = run(
        &mut printer,
        vec![
            Event::Operation(Some(Operation::ManualCommand { command: "G1 {nowhere}".to_string() })),
            Event::Completed(true),
            Event::Operation(None),
        ],
    );
    assert_eq!(steps, vec!["fail nowhere", "exit", "exit"]);
    assert_eq!(printer.phase, Phase::Finished);
}

#[test]
fn the_step_functions_by_state_are_the_step() {
    let mut printer = printing(job(1, 50), Some(1000));
    assert_eq!(brief(&printer.print_event_loop(Event::Operation(None))), "prefetch 1");
    let mut printer = idle();
    assert_eq!(brief(&printer.start_print(Some(job(1, 50)))), "send START_GCODE TOTAL_LAYERS=1");
    assert_eq!(printer.state.status(), PrinterStatus::Printing);
    let mut printer = idle();
    assert_eq!(brief(&printer.shutdown(false)), "send M84");
    assert_eq!(printer.phase, Phase::Stopping { exit: false });
    let mut printer = printing(job(1, 50), Some(1000));
    assert_eq!(brief(&printer.pause_print()), "send MOVE_PLATE Z=100 F=180 +publish");
    assert_eq!(printer.state.paused(), Some(true));
    printer.step(Event::Completed(true));
    assert_eq!(brief(&printer.paused_move(20)), "send MOVE_PLATE Z=0.05 F=180");
    let mut printer = printing(job(1, 50), Some(1000));
    assert_eq!(brief(&printer.paused_move(20)), "poll");
    assert_eq!(
        brief(&printer.printing_operation_handler(Some(Operation::QueryState))),
        "poll +publish"
    );
    let mut printer = idle();
    assert_eq!(
        brief(&printer.idle_operation_handler(Some(Operation::ManualHome))),
        "send HOME_AXIS"
    );
    let mut printer = self::printer();
    assert_eq!(brief(&printer.shutdown_operation_handler(Some(Operation::ManualHome))), "poll");
    let mut printer = printing(job(1, 50), Some(1000));
    printer.step(Event::Operation(None));
    assert_eq!(
        brief(&printer.print_frame(Stage::Prefetch, Event::Done)),
        "send LAYER_START_GCODE LAYER=0"
    );
    let mut printer = self::printer();
    assert_eq!(brief(&printer.boot()), "send G90");
    assert_eq!(printer.phase, Phase::Booting);
}

#[test]
fn the_plate_stays_within_the_greatest_height() {
    let mut printer = printing(job(100, 50), Some(1000));
    let max_z = configuration().printer.max_z;
    let mut events = Vec::new();
    for _ in 0..5 {
        events.extend(layer_events(Some(1000)));
    }
    events.push(Event::Operation(Some(Operation::PausePrint)));
    events.push(Event::Completed(true));
    events.push(Event::Operation(Some(Operation::PausePrint)));
    events.push(Event::Completed(true));
    events.push(Event::Operation(Some(Operation::PausePrint)));
    events.push(Event::Completed(true));
    events.push(Event::Operation(Some(Operation::PausePrint)));
    events.push(Event::Completed(true));
    events.push(Event::Operation(Some(Operation::ManualMove { z: max_z })));
    events.push(Event::Completed(true));
    events.push(Event::Operation(Some(Operation::ManualMove { z: u32::MAX })));
    events.push(Event::Completed(true));
    events.push(Event::Operation(Some(Operation::StopPrint)));
    events.push(Event::Operation(Some(Operation::ManualMove { z: max_z + 1 })));
    events.push(Event::Completed(true));
    events.push(Event::Operation(Some(Operation::StartPrint { file_data: file_data() })));
    events.push(Event::JobLoaded(Some(job(100, 50))));
    events.push(Event::Completed(true));
    events.push(Event::FrameLoaded(Some(1000)));
    events.push(Event::Operation(Some(Operation::PausePrint)));
    events.push(Event::Completed(true));
    events.push(Event::Operation(Some(Operation::ManualMove { z: 0 })));
    events.push(Event::Completed(true));
    events.push(Event::Operation(Some(Operation::ResumePrint)));
    events.extend(layer_events(Some(1000)));
    for event in events {
        printer.step(event);
        assert!(printer.hardware_controller.get_physical_state().z_microns <= max_z);
        assert!(printer.state.physical().z_microns <= max_z);
    }
}
