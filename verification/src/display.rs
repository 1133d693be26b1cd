//! The presentation adapter: maps the session and its statistics to a
//! render-ready description — a title, phase-dependent instruction
//! hints, and body lines — without touching the session. Styling and
//! actual drawing are the caller's concern.

use vstd::prelude::*;
use vstd::string::StringExecFns;
use crate::numfmt::{dec_of, min_sec_str, secs_str, secs_to_string, time_to_string, u64_to_string};
use crate::session::{App, Solve, State, MARATHON_SOLVES};
use crate::stats::{
    average_millis, calculate_average, calculate_fastest, calculate_slowest, max_millis,
    min_millis, predict_marathon_time, predict_total_time,
};

verus! {

/// What one panel of the screen should show: its title, the key hints
/// along its bottom edge, its body lines, and whether the body is
/// centered.
pub struct Panel {
    pub title: String,
    pub instructions: Vec<String>,
    pub lines: Vec<String>,
    pub centered: bool,
}

/// Title of the main panel in each phase.
pub open spec fn title_of(state: State) -> Seq<char> {
    match state {
        State::Begin => " Cube Marathon Timer "@,
        State::Running => " Session in Progress! Times: "@,
        State::Finished => " Session done! Times: "@,
    }
}

/// Key hints of the main panel in each phase.
pub open spec fn instructions_of(state: State) -> Seq<Seq<char>> {
    match state {
        State::Begin => seq![
            " Decrease "@,
            "<Left>"@,
            " Increase "@,
            "<Right>"@,
            " Begin "@,
            "<Space>"@,
            " Quit "@,
            "<Q> "@,
        ],
        State::Running => seq![" Current cube solved "@, "<Any key>"@, " Quit "@, "<Q> "@],
        State::Finished => seq![" Restart "@, "<R>"@, " Quit "@, "<Q> "@],
    }
}

/// The body line describing one recorded solve.
pub open spec fn solve_line(s: Solve) -> Seq<char> {
    "Cube "@ + dec_of(s.number as int) + " solved in "@ + secs_str(s.time_millis as int)
        + " sec "@
}

/// Body of the main panel: the target prompt in `Begin`, otherwise one
/// line per recorded solve.
pub open spec fn app_body(app: App) -> Seq<Seq<char>> {
    match app.state {
        State::Begin => seq![
            Seq::<char>::empty(),
            Seq::<char>::empty(),
            "Cubes to solve: "@ + dec_of(app.target as int),
        ],
        _ => app.solves@.map_values(|s: Solve| solve_line(s)),
    }
}

/// A statistic in seconds, or the placeholder before any solve exists.
pub open spec fn opt_secs_str(present: bool, millis: int) -> Seq<char> {
    if present {
        secs_str(millis)
    } else {
        "N/A"@
    }
}

/// A statistic in `minutes:seconds`, or the placeholder before any
/// solve exists.
pub open spec fn opt_min_sec_str(present: bool, millis: int) -> Seq<char> {
    if present {
        min_sec_str(millis)
    } else {
        "N/A"@
    }
}

/// Body of the statistics panel while attempts are still being timed.
pub open spec fn running_stats_body(app: App, now_millis: u64) -> Seq<Seq<char>> {
    let some = app.counter != 0;
    seq![
        "Current cube: "@ + dec_of(app.counter + 1) + " of "@ + dec_of(app.target as int),
        "Average: "@ + opt_secs_str(some, average_millis(app.solves@)) + " sec"@,
        "Fastest solve: "@ + opt_secs_str(some, min_millis(app.solves@)) + " sec"@,
        "Slowest solve: "@ + opt_secs_str(some, max_millis(app.solves@)) + " sec"@,
        "Total time so far: "@ + min_sec_str(now_millis - app.total_begin) + " min"@,
        "Predicted total time: "@ + opt_min_sec_str(
            some,
            average_millis(app.solves@) * app.target,
        ) + " min"@,
    ]
}

/// Body of the statistics panel once the session is complete: the
/// frozen total, and — when the target is not the marathon distance
/// itself — the pace projected over a marathon.
pub open spec fn finished_stats_body(app: App) -> Seq<Seq<char>> {
    let some = app.counter != 0;
    seq![
        "Current cube: All "@ + dec_of(app.target as int) + " cubes solved!"@,
        "Average: "@ + opt_secs_str(some, average_millis(app.solves@)) + " sec"@,
        "Fastest solve: "@ + opt_secs_str(some, min_millis(app.solves@)) + " sec"@,
        "Slowest solve: "@ + opt_secs_str(some, max_millis(app.solves@)) + " sec"@,
        "Total time: "@ + min_sec_str(app.total_time as int) + " min"@,
        if app.target != MARATHON_SOLVES {
            "Estimated marathon time: "@ + min_sec_str(
                average_millis(app.solves@) * MARATHON_SOLVES,
            ) + " min"@
        } else {
            Seq::<char>::empty()
        },
    ]
}

/// The body line describing one recorded solve.
fn solve_line_string(s: &Solve) -> (r: String)
    ensures
        r@ == solve_line(*s),
{
    let r = "Cube ".to_owned().concat(u64_to_string(s.number as u64).as_str()).concat(
        " solved in ",
    ).concat(secs_to_string(s.time_millis).as_str()).concat(" sec ");
    proof {
        assert(r@ =~= solve_line(*s));
    }
    r
}

/// Describe the main panel for the current phase: title, key hints,
/// and either the target prompt or the list of recorded solves.
pub fn describe_app(app: &App) -> (p: Panel)
    requires
        app.wf(),
    ensures
        p.title@ == title_of(app.state),
        p.instructions@.len() == instructions_of(app.state).len(),
        forall|i: int|
            0 <= i < p.instructions@.len() ==> (#[trigger] p.instructions@[i])@
                == instructions_of(app.state)[i],
        p.lines@.len() == app_body(*app).len(),
        forall|i: int|
            0 <= i < p.lines@.len() ==> (#[trigger] p.lines@[i])@ == app_body(*app)[i],
        p.centered == (app.state is Begin),
{
    let title: String = match app.state {
        State::Begin => " Cube Marathon Timer ".to_owned(),
        State::Running => " Session in Progress! Times: ".to_owned(),
        State::Finished => " Session done! Times: ".to_owned(),
    };
    let mut instructions: Vec<String> = Vec::new();
    match app.state {
        State::Begin => {
            instructions.push(" Decrease ".to_owned());
            instructions.push("<Left>".to_owned());
            instructions.push(" Increase ".to_owned());
            instructions.push("<Right>".to_owned());
            instructions.push(" Begin ".to_owned());
            instructions.push("<Space>".to_owned());
            instructions.push(" Quit ".to_owned());
            instructions.push("<Q> ".to_owned());
        },
        State::Running => {
            instructions.push(" Current cube solved ".to_owned());
            instructions.push("<Any key>".to_owned());
            instructions.push(" Quit ".to_owned());
            instructions.push("<Q> ".to_owned());
        },
        State::Finished => {
            instructions.push(" Restart ".to_owned());
            instructions.push("<R>".to_owned());
            instructions.push(" Quit ".to_owned());
            instructions.push("<Q> ".to_owned());
        },
    }
    let mut lines: Vec<String> = Vec::new();
    let centered: bool;
    match app.state {
        State::Begin => {
            lines.push("".to_owned());
            lines.push("".to_owned());
            let prompt = "Cubes to solve: ".to_owned().concat(
                u64_to_string(app.target as u64).as_str(),
            );
            proof {
                reveal_strlit("");
            }
            lines.push(prompt);
            centered = true;
        },
        _ => {
            let mut i: usize = 0;
            while i < app.solves.len()
                invariant
                    i <= app.solves@.len(),
                    lines@.len() == i,
                    forall|j: int|
                        0 <= j < i ==> (#[trigger] lines@[j])@ == solve_line(app.solves@[j]),
                decreases app.solves@.len() - i,
            {
                let s = app.solves[i];
                lines.push(solve_line_string(&s));
                i = i + 1;
            }
            centered = false;
        },
    }
    Panel { title, instructions, lines, centered }
}

/// A statistic in seconds, or the placeholder when it is absent.
fn opt_secs_string(v: Option<u64>) -> (r: String)
    ensures
        r@ == opt_secs_str(v is Some, if v is Some {
            v->Some_0 as int
        } else {
            0
        }),
{
    match v {
        Some(ms) => secs_to_string(ms),
        None => "N/A".to_owned(),
    }
}

/// Describe the statistics panel. Not meaningful in `Begin`, where no
/// session is underway.
pub fn describe_stats(app: &App, now_millis: u64) -> (p: Panel)
    requires
        app.wf(),
        !(app.state is Begin),
        app.state is Running ==> now_millis >= app.total_begin,
    ensures
        p.title@ == " Statistics "@,
        p.instructions@.len() == 0,
        !p.centered,
        p.lines@.len() == 6,
        app.state is Running ==> forall|i: int|
            0 <= i < 6 ==> (#[trigger] p.lines@[i])@ == running_stats_body(*app, now_millis)[i],
        app.state is Finished ==> forall|i: int|
            0 <= i < 6 ==> (#[trigger] p.lines@[i])@ == finished_stats_body(*app)[i],
{
    let avg = calculate_average(app);
    let avg_text = opt_secs_string(avg);
    let fast_text = opt_secs_string(calculate_fastest(app));
    let slow_text = opt_secs_string(calculate_slowest(app));

    let mut lines: Vec<String> = Vec::new();
    match app.state {
        State::Running => {
            let head = "Current cube: ".to_owned().concat(
                u64_to_string(app.counter as u64 + 1).as_str(),
            ).concat(" of ").concat(u64_to_string(app.target as u64).as_str());
            proof {
                assert(head@ =~= running_stats_body(*app, now_millis)[0]);
            }
            lines.push(head);
            let avg_line = "Average: ".to_owned().concat(avg_text.as_str()).concat(" sec");
            proof {
                assert(avg_line@ =~= running_stats_body(*app, now_millis)[1]);
            }
            lines.push(avg_line);
            let fast_line = "Fastest solve: ".to_owned().concat(fast_text.as_str()).concat(
                " sec",
            );
            proof {
                assert(fast_line@ =~= running_stats_body(*app, now_millis)[2]);
            }
            lines.push(fast_line);
            let slow_line = "Slowest solve: ".to_owned().concat(slow_text.as_str()).concat(
                " sec",
            );
            proof {
                assert(slow_line@ =~= running_stats_body(*app, now_millis)[3]);
            }
            lines.push(slow_line);
            let so_far = "Total time so far: ".to_owned().concat(
                time_to_string((now_millis - app.total_begin) as u128).as_str(),
            ).concat(" min");
            proof {
                assert(so_far@ =~= running_stats_body(*app, now_millis)[4]);
            }
            lines.push(so_far);
            let predicted: String = match predict_total_time(app) {
                Some(p) => time_to_string(p),
                None => "N/A".to_owned(),
            };
            let predicted_line = "Predicted total time: ".to_owned().concat(
                predicted.as_str(),
            ).concat(" min");
            proof {
                assert(predicted_line@ =~= running_stats_body(*app, now_millis)[5]);
            }
            lines.push(predicted_line);
        },
        _ => {
            let head = "Current cube: All ".to_owned().concat(
                u64_to_string(app.target as u64).as_str(),
            ).concat(" cubes solved!");
            proof {
                assert(head@ =~= finished_stats_body(*app)[0]);
            }
            lines.push(head);
            let avg_line = "Average: ".to_owned().concat(avg_text.as_str()).concat(" sec");
            proof {
                assert(avg_line@ =~= finished_stats_body(*app)[1]);
            }
            lines.push(avg_line);
            let fast_line = "Fastest solve: ".to_owned().concat(fast_text.as_str()).concat(
                " sec",
            );
            proof {
                assert(fast_line@ =~= finished_stats_body(*app)[2]);
            }
            lines.push(fast_line);
            let slow_line = "Slowest solve: ".to_owned().concat(slow_text.as_str()).concat(
                " sec",
            );
            proof {
                assert(slow_line@ =~= finished_stats_body(*app)[3]);
            }
            lines.push(slow_line);
            let total_line = "Total time: ".to_owned().concat(
                time_to_string(app.total_time as u128).as_str(),
            ).concat(" min");
            proof {
                assert(total_line@ =~= finished_stats_body(*app)[4]);
            }
            lines.push(total_line);
            let last: String;
            if app.target != MARATHON_SOLVES {
                let marathon = predict_marathon_time(app);
                last = "Estimated marathon time: ".to_owned().concat(
                    time_to_string(marathon).as_str(),
                ).concat(" min");
            } else {
                last = "".to_owned();
                proof {
                    reveal_strlit("");
                }
            }
            proof {
                assert(last@ =~= finished_stats_body(*app)[5]);
            }
            lines.push(last);
        },
    }
    Panel { title: " Statistics ".to_owned(), instructions: Vec::new(), lines, centered: false }
}

} // verus!
