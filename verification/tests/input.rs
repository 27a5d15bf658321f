use pomodoro::input::Deletion;
use pomodoro::input::EditRequest;
use pomodoro::input::Input;
use pomodoro::input::Motion;

fn typed(text: &str) -> Input {
    let mut input = Input::default();
    for c in text.chars() {
        input.handle(EditRequest::InsertChar(c));
    }
    input
}

#[test]
fn new_field_is_empty() {
    let input = Input::default();
    assert_eq!(input.value(), "");
    assert_eq!(input.cursor(), 0);
}

#[test]
fn typed_characters_go_in_at_the_cursor() {
    let mut input = typed("first second, third.");
    assert_eq!(input.value(), "first second, third.");
    assert_eq!(input.cursor(), 20);
    input.handle(EditRequest::InsertChar('x'));
    assert_eq!(input.value(), "first second, third.x");
    assert_eq!(input.cursor(), 21);
    input.handle(EditRequest::GoTo(Motion::To(3)));
    input.handle(EditRequest::InsertChar('x'));
    assert_eq!(input.value(), "firxst second, third.x");
    assert_eq!(input.cursor(), 4);
    input.handle(EditRequest::InsertChar('x'));
    assert_eq!(input.value(), "firxxst second, third.x");
    assert_eq!(input.cursor(), 5);
}

#[test]
fn characters_of_several_bytes_count_as_one() {
    let mut input = typed("¡test¡");
    assert_eq!(input.cursor(), 6);
    input.handle(EditRequest::GoTo(Motion::To(5)));
    input.handle(EditRequest::InsertChar('☆'));
    assert_eq!(input.value(), "¡test☆¡");
    assert_eq!(input.cursor(), 6);
    input.handle(EditRequest::GoTo(Motion::Start));
    input.handle(EditRequest::GoTo(Motion::NextChar));
    input.handle(EditRequest::InsertChar('☆'));
    assert_eq!(input.value(), "¡☆test☆¡");
    assert_eq!(input.cursor(), 2);
    input.handle(EditRequest::GoTo(Motion::End));
    input.handle(EditRequest::Delete(Deletion::PrevChar));
    assert_eq!(input.value(), "¡☆test☆");
    assert_eq!(input.cursor(), 7);
}

#[test]
fn cursor_moves_by_characters() {
    let mut input = typed("first second, third.");
    input.handle(EditRequest::GoTo(Motion::PrevChar));
    assert_eq!(input.cursor(), 19);
    input.handle(EditRequest::GoTo(Motion::To(3)));
    assert_eq!(input.cursor(), 3);
    input.handle(EditRequest::GoTo(Motion::PrevChar));
    assert_eq!(input.cursor(), 2);
    input.handle(EditRequest::GoTo(Motion::NextChar));
    input.handle(EditRequest::GoTo(Motion::NextChar));
    assert_eq!(input.cursor(), 4);
    input.handle(EditRequest::GoTo(Motion::Start));
    assert_eq!(input.cursor(), 0);
    input.handle(EditRequest::GoTo(Motion::PrevChar));
    assert_eq!(input.cursor(), 0);
    input.handle(EditRequest::GoTo(Motion::End));
    assert_eq!(input.cursor(), 20);
    input.handle(EditRequest::GoTo(Motion::NextChar));
    assert_eq!(input.cursor(), 20);
    input.handle(EditRequest::GoTo(Motion::To(30)));
    assert_eq!(input.cursor(), 20);
    assert_eq!(input.value(), "first second, third.");
}

#[test]
fn cursor_moves_by_words() {
    let mut input = typed("first second, third.");
    input.handle(EditRequest::GoTo(Motion::PrevWord));
    assert_eq!(input.cursor(), 14);
    input.handle(EditRequest::GoTo(Motion::PrevWord));
    assert_eq!(input.cursor(), 6);
    input.handle(EditRequest::GoTo(Motion::PrevWord));
    assert_eq!(input.cursor(), 0);
    input.handle(EditRequest::GoTo(Motion::NextWord));
    assert_eq!(input.cursor(), 6);
    input.handle(EditRequest::GoTo(Motion::NextWord));
    assert_eq!(input.cursor(), 14);
    input.handle(EditRequest::GoTo(Motion::NextWord));
    assert_eq!(input.cursor(), 20);
    assert_eq!(input.value(), "first second, third.");
}

#[test]
fn deletions_take_characters_out() {
    let mut input = typed("first second, third.");
    input.handle(EditRequest::Delete(Deletion::PrevChar));
    assert_eq!(input.value(), "first second, third");
    assert_eq!(input.cursor(), 19);
    input.handle(EditRequest::Delete(Deletion::NextChar));
    assert_eq!(input.value(), "first second, third");
    assert_eq!(input.cursor(), 19);
    input.handle(EditRequest::GoTo(Motion::Start));
    input.handle(EditRequest::Delete(Deletion::PrevChar));
    assert_eq!(input.value(), "first second, third");
    input.handle(EditRequest::Delete(Deletion::NextChar));
    assert_eq!(input.value(), "irst second, third");
    assert_eq!(input.cursor(), 0);
    input.handle(EditRequest::GoTo(Motion::To(4)));
    input.handle(EditRequest::Delete(Deletion::TillEnd));
    assert_eq!(input.value(), "irst");
    assert_eq!(input.cursor(), 4);
    input.handle(EditRequest::Delete(Deletion::Line));
    assert_eq!(input.value(), "");
    assert_eq!(input.cursor(), 0);
}

#[test]
fn deletions_take_words_out() {
    let mut input = typed("first second, third.");
    input.handle(EditRequest::Delete(Deletion::PrevWord));
    assert_eq!(input.value(), "first second, ");
    assert_eq!(input.cursor(), 14);
    input.handle(EditRequest::GoTo(Motion::Start));
    input.handle(EditRequest::Delete(Deletion::NextWord));
    assert_eq!(input.value(), "second, ");
    assert_eq!(input.cursor(), 0);
}

#[test]
fn reset_empties_the_field() {
    let mut input = typed("write report");
    input.handle(EditRequest::GoTo(Motion::To(5)));
    input.reset();
    assert_eq!(input.value(), "");
    assert_eq!(input.cursor(), 0);
    input.handle(EditRequest::InsertChar('a'));
    assert_eq!(input.value(), "a");
    assert_eq!(input.cursor(), 1);
}

#[test]
fn field_scrolls_to_keep_the_cursor_in_sight() {
    let input = typed("Ｈｅｌｌｏ, ｗｏｒｌｄ!");
    assert_eq!(input.cursor(), 13);
    assert_eq!(input.visual_scroll(6), 18);
    assert_eq!(input.visual_scroll(23), 0);
    assert_eq!(input.visual_scroll(100), 0);

    let mut input = typed("write report");
    assert_eq!(input.visual_scroll(5), 7);
    assert_eq!(input.visual_scroll(12), 0);
    input.handle(EditRequest::GoTo(Motion::Start));
    assert_eq!(input.visual_scroll(5), 0);
    assert_eq!(Input::default().visual_scroll(0), 0);
}
