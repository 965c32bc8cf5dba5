use gpt_cli::select::{select_from_list, Key, SelectList};

fn chosen(items: &[&str], keys: &Vec<Key>) -> Option<String> {
    select_from_list("Pick one:", options(items), keys).choice
}

fn options(items: &[&str]) -> Vec<String> {
    items.iter().map(|item| item.to_string()).collect()
}

#[test]
fn cursor_starts_at_the_first_option() {
    let list = SelectList::new(options(&["a", "b", "c"]));
    assert_eq!(list.cursor(), 0);
    assert_eq!(list.len(), 3);
    assert_eq!(list.selected(), "a");
}

#[test]
fn up_at_the_top_does_not_wrap() {
    let mut list = SelectList::new(options(&["a", "b", "c"]));
    assert!(!list.press(Key::Up));
    assert_eq!(list.cursor(), 0);
    assert_eq!(list.selected(), "a");
}

#[test]
fn down_at_the_bottom_does_not_wrap() {
    let mut list = SelectList::new(options(&["a", "b", "c"]));
    assert!(!list.press(Key::Down));
    assert_eq!(list.cursor(), 1);
    assert!(!list.press(Key::Down));
    assert_eq!(list.cursor(), 2);
    assert!(!list.press(Key::Down));
    assert_eq!(list.cursor(), 2);
    assert_eq!(list.selected(), "c");
    assert!(!list.press(Key::Up));
    assert_eq!(list.cursor(), 1);
    assert_eq!(list.selected(), "b");
}

#[test]
fn other_keys_and_enter_leave_the_cursor() {
    let mut list = SelectList::new(options(&["a", "b"]));
    list.press(Key::Down);
    assert!(!list.press(Key::Other));
    assert_eq!(list.cursor(), 1);
    assert!(list.press(Key::Enter));
    assert_eq!(list.cursor(), 1);
    assert_eq!(list.selected(), "b");
}

#[test]
fn single_option_list_never_moves() {
    let mut list = SelectList::new(options(&["only"]));
    for key in [Key::Down, Key::Down, Key::Up, Key::Other, Key::Up].iter() {
        assert!(!list.press(*key));
        assert_eq!(list.cursor(), 0);
    }
    assert!(list.press(Key::Enter));
    assert_eq!(list.selected(), "only");
}

#[test]
fn frame_marks_the_highlighted_option() {
    let mut list = SelectList::new(options(&["GPT-3.5", "GPT-3", "GPT-4", "Codex"]));
    assert_eq!(
        list.frame("Choose a model:"),
        vec!["Choose a model:", "> GPT-3.5", "  GPT-3", "  GPT-4", "  Codex"]
    );
    list.press(Key::Down);
    list.press(Key::Down);
    assert_eq!(
        list.frame("Choose a model:"),
        vec!["Choose a model:", "  GPT-3.5", "  GPT-3", "> GPT-4", "  Codex"]
    );
}

#[test]
fn frame_height_is_the_number_of_lines_drawn() {
    let list = SelectList::new(options(&["a", "b", "c"]));
    assert_eq!(list.frame_height(), 4);
    assert_eq!(list.frame("pick").len(), list.frame_height());
    let one = SelectList::new(options(&[""]));
    assert_eq!(one.frame_height(), 2);
    assert_eq!(one.frame(""), vec!["", "> "]);
}

#[test]
fn replay_returns_the_confirmed_option() {
    let keys = vec![Key::Down, Key::Up, Key::Up, Key::Down, Key::Enter];
    assert_eq!(chosen(&["GPT-3.5", "GPT-3", "GPT-4", "Codex"], &keys), Some("GPT-3".to_string()));
    assert_eq!(chosen(&["a", "b"], &vec![Key::Enter]), Some("a".to_string()));
    let down_six = vec![Key::Down, Key::Down, Key::Down, Key::Down, Key::Down, Key::Down, Key::Enter];
    assert_eq!(chosen(&["a", "b", "c"], &down_six), Some("c".to_string()));
}

#[test]
fn replay_without_enter_chooses_nothing() {
    assert_eq!(chosen(&["a", "b"], &vec![]), None);
    assert_eq!(chosen(&["a", "b"], &vec![Key::Down, Key::Other, Key::Up]), None);
}

#[test]
fn replay_stops_at_the_first_enter() {
    let keys = vec![Key::Down, Key::Enter, Key::Down, Key::Enter];
    assert_eq!(chosen(&["a", "b", "c"], &keys), Some("b".to_string()));
}

#[test]
fn replay_draws_one_frame_before_each_key_read() {
    let keys = vec![Key::Down, Key::Other, Key::Down, Key::Down, Key::Up, Key::Enter, Key::Up];
    let run = select_from_list("Choose a model:", options(&["a", "b", "c"]), &keys);
    assert_eq!(run.choice, Some("b".to_string()));
    let cursors = [0usize, 1, 1, 2, 2, 1];
    assert_eq!(run.draws.len(), cursors.len());
    for (i, draw) in run.draws.iter().enumerate() {
        let mut expected = vec!["Choose a model:".to_string()];
        for (at, option) in ["a", "b", "c"].iter().enumerate() {
            let mark = if at == cursors[i] { "> " } else { "  " };
            expected.push(format!("{}{}", mark, option));
        }
        assert_eq!(draw.lines, expected, "frame {}", i);
    }
}

#[test]
fn redraw_clears_the_frame_before_it_and_the_first_clears_nothing() {
    let keys = vec![Key::Down, Key::Up, Key::Enter];
    let run = select_from_list("pick", options(&["a", "b", "c", "d"]), &keys);
    assert_eq!(run.draws.len(), 3);
    assert_eq!(run.draws[0].clear, 0);
    assert_eq!(run.draws[1].clear, 5);
    assert_eq!(run.draws[2].clear, 5);
    for draw in run.draws.iter() {
        assert_eq!(draw.lines.len(), 5);
    }
    for i in 1..run.draws.len() {
        assert_eq!(run.draws[i].clear, run.draws[i - 1].lines.len());
    }
}

#[test]
fn replay_without_keys_draws_the_first_frame_only() {
    let run = select_from_list("pick", options(&["a", "b"]), &vec![]);
    assert_eq!(run.choice, None);
    assert_eq!(run.draws.len(), 1);
    assert_eq!(run.draws[0].clear, 0);
    assert_eq!(run.draws[0].lines, vec!["pick", "> a", "  b"]);
    let unfinished = select_from_list("pick", options(&["a", "b"]), &vec![Key::Down, Key::Down]);
    assert_eq!(unfinished.choice, None);
    assert_eq!(unfinished.draws.len(), 3);
    assert_eq!(unfinished.draws[2].lines, vec!["pick", "  a", "> b"]);
}

#[test]
fn draw_on_a_live_list_clears_only_what_it_drew() {
    let mut list = SelectList::new(options(&["a", "b"]));
    let first = list.draw("pick");
    assert_eq!(first.clear, 0);
    assert_eq!(first.lines, vec!["pick", "> a", "  b"]);
    list.press(Key::Down);
    let second = list.draw("pick");
    assert_eq!(second.clear, 3);
    assert_eq!(second.lines, vec!["pick", "  a", "> b"]);
    let third = list.draw("pick");
    assert_eq!(third.clear, 3);
    assert_eq!(third.lines, second.lines);
    assert_eq!(list.cursor(), 1);
}

#[test]
fn replay_always_returns_an_option_of_the_list() {
    let all = [Key::Up, Key::Down, Key::Other, Key::Enter];
    let mut seed: u32 = 12345;
    for round in 0..500usize {
        let size = 1 + round % 5;
        let list: Vec<String> = (0..size).map(|i| format!("option-{}", i)).collect();
        let mut keys = Vec::new();
        let count = round % 17;
        for _ in 0..count {
            seed = seed.wrapping_mul(1664525).wrapping_add(1013904223);
            keys.push(all[((seed >> 16) % 4) as usize]);
        }
        let mut stepper = SelectList::new(list.clone());
        let mut expected = None;
        let mut frames = Vec::new();
        for key in keys.iter() {
            frames.push(stepper.frame("p"));
            let confirmed = stepper.press(*key);
            assert!(stepper.cursor() < size);
            if confirmed {
                expected = Some(stepper.selected().to_string());
                break;
            }
        }
        if expected.is_none() {
            frames.push(stepper.frame("p"));
        }
        let run = select_from_list("p", list.clone(), &keys);
        assert_eq!(run.choice, expected);
        assert_eq!(run.choice.is_some(), keys.contains(&Key::Enter));
        if let Some(option) = &run.choice {
            assert!(list.contains(option));
        }
        assert_eq!(run.draws.len(), frames.len());
        for (i, draw) in run.draws.iter().enumerate() {
            assert_eq!(draw.lines, frames[i]);
            assert_eq!(draw.clear, if i == 0 { 0 } else { size + 1 });
        }
    }
}
