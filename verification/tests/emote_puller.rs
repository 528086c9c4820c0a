use emote_resolver::emote_puller::{
    conversion_outcome, EmotePuller, EmoteStatus, PullPlan, PullStep, WorkStep, CONVERSION_FAILED,
};
use emote_resolver::failure::Failure;
use emote_resolver::seventv::SevenUserEmote;

fn emote(id: &str, animated: bool) -> SevenUserEmote {
    SevenUserEmote { id: id.to_owned(), name: "name".to_owned(), animated }
}

#[test]
fn file_names_follow_the_animated_flag() {
    assert_eq!(EmotePuller::get_emote_filename(&emote("abc", true)), "abc.gif");
    assert_eq!(EmotePuller::get_emote_filename(&emote("abc", false)), "abc.webp");
}

#[test]
fn served_path_is_under_the_emotes_directory() {
    assert_eq!(EmotePuller::get_pulled_emote_path(&emote("abc", true)), "./emotes/abc.gif");
    assert_eq!(EmotePuller::get_pulled_emote_path(&emote("60ae", false)), "./emotes/60ae.webp");
}

#[test]
fn plan_of_an_animated_emote_converts() {
    let plan = EmotePuller::process_emote(&emote("abc", true));
    assert_eq!(plan.url, "https://cdn.7tv.app/emote/abc/4x.webp");
    assert_eq!(plan.download_name, "abc.webp");
    assert!(plan.convert);
    assert_eq!(plan.source_name, "abc.gif");
    assert_eq!(plan.target, "./emotes/abc.gif");
}

#[test]
fn plan_of_a_still_emote_moves_the_download() {
    let plan = EmotePuller::process_emote(&emote("abc", false));
    assert_eq!(plan.url, "https://cdn.7tv.app/emote/abc/4x.webp");
    assert_eq!(plan.download_name, "abc.webp");
    assert!(!plan.convert);
    assert_eq!(plan.source_name, "abc.webp");
    assert_eq!(plan.target, "./emotes/abc.webp");
}

#[test]
fn unknown_asset_is_probed_first() {
    let mut puller = EmotePuller::new();
    let abc = emote("abc", true);
    assert_eq!(puller.load_emote(&abc, 1), PullStep::Probe);
    assert!(puller.status("abc").is_none());
}

#[test]
fn existing_file_needs_no_download() {
    let mut puller = EmotePuller::new();
    let abc = emote("abc", true);
    assert_eq!(puller.load_emote(&abc, 1), PullStep::Probe);
    assert_eq!(puller.arrive(&abc, 1, true), PullStep::Done);
    assert!(matches!(puller.status("abc"), Some(EmoteStatus::Ready)));
    assert_eq!(puller.load_emote(&abc, 2), PullStep::Done);
    assert_eq!(puller.arrive(&abc, 3, false), PullStep::Done);
}

#[test]
fn five_callers_share_one_download() {
    let mut puller = EmotePuller::new();
    let abc = emote("abc", true);
    let mut works = 0;
    let mut waits = 0;
    for caller in 1..=5u64 {
        let mut step = puller.load_emote(&abc, caller);
        if step == PullStep::Probe {
            step = puller.arrive(&abc, caller, false);
        }
        match step {
            PullStep::Work => works += 1,
            PullStep::Wait => waits += 1,
            other => panic!("unexpected {:?}", other),
        }
    }
    assert_eq!(works, 1);
    assert_eq!(waits, 4);
    let plan = EmotePuller::process_emote(&abc);
    assert!(plan.convert);
    assert_eq!(plan.target, "./emotes/abc.gif");
    let settlement = puller.settle(&abc, Ok(()));
    assert_eq!(settlement.callers, vec![1, 2, 3, 4, 5]);
    assert!(settlement.outcome.is_ok());
    assert!(matches!(puller.status("abc"), Some(EmoteStatus::Ready)));
    assert_eq!(puller.load_emote(&abc, 6), PullStep::Done);
}

#[test]
fn waiting_callers_are_kept_in_order() {
    let mut puller = EmotePuller::new();
    let abc = emote("abc", false);
    assert_eq!(puller.arrive(&abc, 9, false), PullStep::Work);
    assert_eq!(puller.load_emote(&abc, 4), PullStep::Wait);
    assert_eq!(puller.arrive(&abc, 7, true), PullStep::Wait);
    match puller.status("abc") {
        Some(EmoteStatus::Pending(waiting)) => assert_eq!(waiting, &vec![9, 4, 7]),
        other => panic!("unexpected {:?}", other),
    }
}

#[test]
fn failure_is_told_to_all_and_allows_a_retry() {
    let mut puller = EmotePuller::new();
    let abc = emote("abc", true);
    assert_eq!(puller.arrive(&abc, 1, false), PullStep::Work);
    assert_eq!(puller.load_emote(&abc, 2), PullStep::Wait);
    let settlement = puller.settle(&abc, Err(Failure::Pipeline("magick: not found".to_owned())));
    assert_eq!(settlement.callers, vec![1, 2]);
    match settlement.outcome {
        Err(Failure::Pipeline(report)) => assert_eq!(report, "magick: not found"),
        other => panic!("unexpected {:?}", other),
    }
    assert!(puller.status("abc").is_none());
    assert_eq!(puller.load_emote(&abc, 3), PullStep::Probe);
    assert_eq!(puller.arrive(&abc, 3, false), PullStep::Work);
    let settlement = puller.settle(&abc, Ok(()));
    assert_eq!(settlement.callers, vec![3]);
    assert!(matches!(puller.status("abc"), Some(EmoteStatus::Ready)));
}

#[test]
fn settling_what_is_not_pending_changes_nothing() {
    let mut puller = EmotePuller::new();
    let abc = emote("abc", true);
    let settlement = puller.settle(&abc, Ok(()));
    assert!(settlement.callers.is_empty());
    assert!(puller.status("abc").is_none());
    assert_eq!(puller.arrive(&abc, 1, true), PullStep::Done);
    let settlement = puller.settle(&abc, Err(Failure::Pipeline("late".to_owned())));
    assert!(settlement.callers.is_empty());
    assert!(matches!(settlement.outcome, Err(Failure::Pipeline(_))));
    assert!(matches!(puller.status("abc"), Some(EmoteStatus::Ready)));
}

#[test]
fn assets_do_not_share_their_state() {
    let mut puller = EmotePuller::new();
    let abc = emote("abc", true);
    let xyz = emote("xyz", false);
    assert_eq!(puller.arrive(&abc, 1, false), PullStep::Work);
    assert_eq!(puller.arrive(&xyz, 2, false), PullStep::Work);
    assert_eq!(puller.load_emote(&abc, 3), PullStep::Wait);
    let settlement = puller.settle(&xyz, Ok(()));
    assert_eq!(settlement.callers, vec![2]);
    let settlement = puller.settle(&abc, Ok(()));
    assert_eq!(settlement.callers, vec![1, 3]);
}

fn report(step: WorkStep) -> String {
    match step {
        WorkStep::Finish(Err(Failure::Pipeline(report))) => report,
        other => panic!("unexpected {:?}", other),
    }
}

/// Runs the work as its steps name it and counts what is done.
fn run(
    plan: &PullPlan,
    downloaded: Result<(), String>,
    ran: Result<bool, String>,
    moved: Result<(), String>,
) -> (Result<(), Failure>, u32, u32, u32) {
    let (mut downloads, mut conversions, mut moves) = (0, 0, 0);
    let mut step = WorkStep::Download;
    loop {
        step = match step {
            WorkStep::Download => {
                downloads += 1;
                plan.after_download(downloaded.clone())
            }
            WorkStep::Convert => {
                conversions += 1;
                PullPlan::after_conversion(ran.clone())
            }
            WorkStep::Move => {
                moves += 1;
                PullPlan::after_move(moved.clone())
            }
            WorkStep::Finish(outcome) => return (outcome, downloads, conversions, moves),
        };
    }
}

#[test]
fn conversion_that_ends_well_is_no_failure() {
    assert!(conversion_outcome(Ok(true)).is_ok());
}

#[test]
fn conversion_that_ends_in_failure_fails_the_pipeline() {
    assert_eq!(CONVERSION_FAILED, "Emote conversion failed");
    match conversion_outcome(Ok(false)) {
        Err(Failure::Pipeline(report)) => assert_eq!(report, "Emote conversion failed"),
        other => panic!("unexpected {:?}", other),
    }
}

#[test]
fn conversion_that_cannot_start_fails_the_pipeline() {
    match conversion_outcome(Err("No such file or directory".to_owned())) {
        Err(Failure::Pipeline(report)) => assert_eq!(report, "No such file or directory"),
        other => panic!("unexpected {:?}", other),
    }
}

#[test]
fn work_on_an_animated_emote_downloads_converts_and_moves() {
    let plan = EmotePuller::process_emote(&emote("abc", true));
    let (outcome, downloads, conversions, moves) = run(&plan, Ok(()), Ok(true), Ok(()));
    assert!(outcome.is_ok());
    assert_eq!((downloads, conversions, moves), (1, 1, 1));
}

#[test]
fn work_on_a_still_emote_does_not_convert() {
    let plan = EmotePuller::process_emote(&emote("abc", false));
    let (outcome, downloads, conversions, moves) = run(&plan, Ok(()), Ok(false), Ok(()));
    assert!(outcome.is_ok());
    assert_eq!((downloads, conversions, moves), (1, 0, 1));
}

#[test]
fn failed_download_ends_the_work() {
    for animated in [true, false] {
        let plan = EmotePuller::process_emote(&emote("abc", animated));
        let (outcome, downloads, conversions, moves) =
            run(&plan, Err("404".to_owned()), Ok(true), Ok(()));
        assert_eq!((downloads, conversions, moves), (1, 0, 0));
        match outcome {
            Err(Failure::Pipeline(report)) => assert_eq!(report, "404"),
            other => panic!("unexpected {:?}", other),
        }
    }
}

#[test]
fn failed_conversion_moves_nothing() {
    let plan = EmotePuller::process_emote(&emote("abc", true));
    let (outcome, downloads, conversions, moves) = run(&plan, Ok(()), Ok(false), Ok(()));
    assert_eq!((downloads, conversions, moves), (1, 1, 0));
    assert_eq!(outcome.err().unwrap().message(), "Emote conversion failed");
    let (outcome, _, conversions, moves) =
        run(&plan, Ok(()), Err("magick: not found".to_owned()), Ok(()));
    assert_eq!((conversions, moves), (1, 0));
    assert_eq!(outcome.err().unwrap().message(), "magick: not found");
}

#[test]
fn failed_move_fails_the_work() {
    let plan = EmotePuller::process_emote(&emote("abc", false));
    let (outcome, downloads, conversions, moves) =
        run(&plan, Ok(()), Ok(true), Err("Permission denied".to_owned()));
    assert_eq!((downloads, conversions, moves), (1, 0, 1));
    assert_eq!(outcome.err().unwrap().message(), "Permission denied");
}

#[test]
fn steps_after_each_event() {
    let moving = EmotePuller::process_emote(&emote("abc", false));
    let converting = EmotePuller::process_emote(&emote("abc", true));
    assert!(matches!(moving.after_download(Ok(())), WorkStep::Move));
    assert!(matches!(converting.after_download(Ok(())), WorkStep::Convert));
    assert_eq!(report(converting.after_download(Err("reset".to_owned()))), "reset");
    assert!(matches!(PullPlan::after_conversion(Ok(true)), WorkStep::Move));
    assert_eq!(report(PullPlan::after_conversion(Ok(false))), "Emote conversion failed");
    assert!(matches!(PullPlan::after_move(Ok(())), WorkStep::Finish(Ok(()))));
    assert_eq!(report(PullPlan::after_move(Err("busy".to_owned()))), "busy");
}

#[test]
fn failed_work_is_settled_as_it_ended() {
    let mut puller = EmotePuller::new();
    let abc = emote("abc", true);
    assert_eq!(puller.arrive(&abc, 1, false), PullStep::Work);
    let plan = EmotePuller::process_emote(&abc);
    let (outcome, _, _, _) = run(&plan, Ok(()), Ok(false), Ok(()));
    let settlement = puller.settle(&abc, outcome);
    assert_eq!(settlement.callers, vec![1]);
    assert_eq!(settlement.outcome.err().unwrap().message(), "Emote conversion failed");
    assert!(puller.status("abc").is_none());
}
