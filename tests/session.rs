use budge::field::{EditKey, FieldBuffer};
use budge::gauge::{GaugeLabel, GaugeTone};
use budge::layout::{centered_rect, field_cursor, Rect};
use budge::number::{parse_amount, parse_integer};
use budge::session::{Action, App, Budget, InputLocation, InputMode, Key, Payment, SessionError};

fn payment(id: i64, amount: i64) -> Payment {
    Payment { id, amount, budget_id: 1, kind: "food".to_string(), day_of: "2025-01-01".to_string() }
}

fn type_text(app: &mut App, text: &str) {
    for c in text.chars() {
        let r = app.handle_key(Key::Char(c), false);
        assert!(matches!(r, Action::Nothing));
    }
}

fn text_of(b: &FieldBuffer) -> String {
    b.value().clone()
}

#[test]
fn scroll_stays_on_empty_list() {
    let mut app = App::new(1);
    app.handle_key(Key::Char('j'), false);
    assert_eq!(app.scroll, 0);
    app.handle_key(Key::Char('k'), false);
    assert_eq!(app.scroll, 0);
    assert_eq!(app.scrollbar(), (0, 0));
}

#[test]
fn scroll_is_clamped_to_list() {
    let mut app = App::new(1);
    app.load(None, vec![payment(1, 10), payment(2, 20), payment(3, 30)]);
    for _ in 0..5 {
        app.handle_key(Key::Char('j'), false);
    }
    assert_eq!(app.scroll, 2);
    assert_eq!(app.scrollbar(), (2, 3));
    app.handle_key(Key::Char('k'), false);
    assert_eq!(app.scroll, 1);
    for _ in 0..5 {
        app.scroll_up();
    }
    assert_eq!(app.scroll, 0);
}

#[test]
fn load_pulls_scroll_back_onto_shorter_list() {
    let mut app = App::new(1);
    app.load(None, vec![payment(1, 10), payment(2, 20), payment(3, 30)]);
    app.scroll_down();
    app.scroll_down();
    app.load(None, vec![payment(1, 10)]);
    assert_eq!(app.scroll, 0);
    app.load(None, vec![]);
    assert_eq!(app.scroll, 0);
}

#[test]
fn key_release_is_ignored() {
    let mut app = App::new(1);
    let r = app.handle_key(Key::Char('a'), true);
    assert!(matches!(r, Action::Nothing));
    assert_eq!(app.mode, InputMode::Normal);
}

#[test]
fn quit_from_normal_mode() {
    let mut app = App::new(1);
    assert!(matches!(app.handle_key(Key::Char('q'), false), Action::Quit));
}

#[test]
fn non_numeric_amount_fails_without_store_call() {
    let mut app = App::new(4);
    app.handle_key(Key::Char('a'), false);
    type_text(&mut app, "rent");
    app.handle_key(Key::Tab, false);
    type_text(&mut app, "abc");
    let r = app.handle_key(Key::Enter, false);
    assert!(matches!(r, Action::Failed(SessionError::ParseFailure)));
    assert_eq!(app.mode, InputMode::Editing);
    assert_eq!(text_of(&app.payment_input.0), "rent");
    assert_eq!(text_of(&app.payment_input.1), "abc");
}

#[test]
fn valid_payment_is_requested_once_and_fields_cleared() {
    let mut app = App::new(4);
    app.handle_key(Key::Char('a'), false);
    assert_eq!(app.location, InputLocation::Type);
    type_text(&mut app, "groceries");
    app.handle_key(Key::Tab, false);
    type_text(&mut app, "12.5");
    match app.handle_key(Key::Enter, false) {
        Action::InsertPayment(p) => {
            assert_eq!(p.amount, 1250);
            assert_eq!(p.budget_id, 4);
            assert_eq!(p.kind, "groceries");
        }
        _ => panic!("expected a payment request"),
    }
    assert_eq!(app.mode, InputMode::Normal);
    assert_eq!(text_of(&app.payment_input.0), "");
    assert_eq!(text_of(&app.payment_input.1), "");
}

#[test]
fn escape_from_payment_dialog_clears_fields() {
    let mut app = App::new(4);
    app.handle_key(Key::Char('a'), false);
    type_text(&mut app, "x");
    app.handle_key(Key::Esc, false);
    assert_eq!(app.mode, InputMode::Normal);
    assert_eq!(text_of(&app.payment_input.0), "");
}

#[test]
fn deleting_with_non_numeric_id_fails() {
    let mut app = App::new(1);
    app.handle_key(Key::Delete, false);
    assert_eq!(app.mode, InputMode::Deleting);
    type_text(&mut app, "x1");
    let r = app.handle_key(Key::Enter, false);
    assert!(matches!(r, Action::Failed(SessionError::ParseFailure)));
    assert_eq!(app.mode, InputMode::Deleting);
    assert_eq!(text_of(&app.deletion_id), "x1");
}

#[test]
fn deleting_with_valid_id_requests_it_and_clears() {
    let mut app = App::new(1);
    app.handle_key(Key::Delete, false);
    type_text(&mut app, "42");
    let r = app.handle_key(Key::Enter, false);
    assert!(matches!(r, Action::DeletePayment(42)));
    assert_eq!(app.mode, InputMode::Normal);
    assert_eq!(text_of(&app.deletion_id), "");
}

#[test]
fn escape_from_deletion_clears_field() {
    let mut app = App::new(1);
    app.handle_key(Key::Delete, false);
    type_text(&mut app, "7");
    app.handle_key(Key::Esc, false);
    assert_eq!(app.mode, InputMode::Normal);
    assert_eq!(text_of(&app.deletion_id), "");
}

#[test]
fn tab_alternates_between_payment_fields() {
    let mut app = App::new(1);
    app.handle_key(Key::Char('a'), false);
    let mut seen = vec![app.location];
    for _ in 0..4 {
        app.handle_key(Key::Tab, false);
        seen.push(app.location);
    }
    assert_eq!(
        seen,
        vec![
            InputLocation::Type,
            InputLocation::Amount,
            InputLocation::Type,
            InputLocation::Amount,
            InputLocation::Type
        ]
    );
}

#[test]
fn tab_alternates_between_budget_fields() {
    let mut app = App::new(1);
    app.handle_key(Key::Char('b'), false);
    assert_eq!(app.location, InputLocation::Budget);
    app.handle_key(Key::Tab, false);
    assert_eq!(app.location, InputLocation::Month);
    app.handle_key(Key::Tab, false);
    assert_eq!(app.location, InputLocation::Budget);
}

#[test]
fn created_budget_round_trips_through_load() {
    let mut app = App::new(1);
    app.handle_key(Key::Char('b'), false);
    type_text(&mut app, "500");
    app.handle_key(Key::Tab, false);
    type_text(&mut app, "202502");
    let nb = match app.handle_key(Key::Enter, false) {
        Action::InsertBudget(nb) => nb,
        _ => panic!("expected a budget request"),
    };
    assert_eq!(nb.amount, 50000);
    assert_eq!(nb.month, "202502");
    assert_eq!(text_of(&app.new_budget.0), "");
    assert_eq!(text_of(&app.new_budget.1), "");
    app.load(Some(Budget { id: 2, amount: nb.amount, month: nb.month.clone() }), vec![]);
    let b = app.budget.clone().unwrap();
    assert_eq!(b.amount, 50000);
    assert_eq!(b.month, "202502");
    assert!(app.payments.is_empty());
}

#[test]
fn budget_with_bad_amount_fails() {
    let mut app = App::new(1);
    app.handle_key(Key::Char('b'), false);
    type_text(&mut app, "5x");
    let r = app.handle_key(Key::Enter, false);
    assert!(matches!(r, Action::Failed(SessionError::ParseFailure)));
    assert_eq!(app.mode, InputMode::NewBudget);
}

fn gauge_app(total: i64) -> App {
    let mut app = App::new(1);
    app.load(
        Some(Budget { id: 1, amount: 100000, month: "202501".to_string() }),
        vec![payment(1, total)],
    );
    app
}

#[test]
fn gauge_within_ceiling_is_warning() {
    let g = gauge_app(25000).budget_gauge();
    assert_eq!(g.num as f64 / g.den as f64, 0.25);
    assert_eq!(g.tone, GaugeTone::Warning);
    assert_eq!(g.label, GaugeLabel::Spent { total: 25000, ceiling: 100000 });
}

#[test]
fn gauge_negative_total_is_safe_and_clamped() {
    let g = gauge_app(-130000).budget_gauge();
    assert_eq!(g.num as f64 / g.den as f64, 1.0);
    assert_eq!(g.tone, GaugeTone::Safe);
}

#[test]
fn gauge_over_ceiling_is_alert_and_clamped() {
    let g = gauge_app(150000).budget_gauge();
    assert_eq!(g.num as f64 / g.den as f64, 1.0);
    assert_eq!(g.tone, GaugeTone::Alert);
}

#[test]
fn gauge_zero_total_is_neutral() {
    let mut app = gauge_app(500);
    app.load(app.budget.clone(), vec![payment(1, 500), payment(2, -500)]);
    let g = app.budget_gauge();
    assert_eq!(g.num, 0);
    assert_eq!(g.tone, GaugeTone::Neutral);
}

#[test]
fn gauge_without_budget_is_full() {
    let mut app = App::new(1);
    app.load(None, vec![payment(1, 300), payment(2, 400)]);
    let g = app.budget_gauge();
    assert_eq!(g.num, 1);
    assert_eq!(g.den, 1);
    assert_eq!(g.label, GaugeLabel::NoBudget);
    app.load(None, vec![]);
    let g = app.budget_gauge();
    assert_eq!((g.num, g.den), (1, 1));
    assert_eq!(g.label, GaugeLabel::NoBudget);
}

#[test]
fn amounts_read_as_cents() {
    assert_eq!(parse_amount(&"12".to_string()), Some(1200));
    assert_eq!(parse_amount(&"-3.5".to_string()), Some(-350));
    assert_eq!(parse_amount(&".25".to_string()), Some(25));
    assert_eq!(parse_amount(&"7.".to_string()), Some(700));
    assert_eq!(parse_amount(&"+0.05".to_string()), Some(5));
    assert_eq!(parse_amount(&"92233720368547758.07".to_string()), Some(i64::MAX));
    assert_eq!(parse_amount(&"92233720368547758.0700".to_string()), Some(i64::MAX));
    assert_eq!(parse_amount(&"-92233720368547758.08".to_string()), Some(i64::MIN));
}

#[test]
fn malformed_amounts_are_refused() {
    for s in ["", "-", ".", "abc", "1.2.3", "1e3", " 5", "1.2x", "92233720368547758.08"] {
        assert_eq!(parse_amount(&s.to_string()), None, "{}", s);
    }
}

#[test]
fn integers_read_like_i64() {
    assert_eq!(parse_integer(&"42".to_string()), Some(42));
    assert_eq!(parse_integer(&"+7".to_string()), Some(7));
    assert_eq!(parse_integer(&"-9223372036854775808".to_string()), Some(i64::MIN));
    assert_eq!(parse_integer(&"9223372036854775807".to_string()), Some(i64::MAX));
    for s in ["", "-", "+", "9223372036854775808", "4.2", "x"] {
        assert_eq!(parse_integer(&s.to_string()), None, "{}", s);
    }
}

#[test]
fn field_edits() {
    let mut f = FieldBuffer::new();
    f.edit(EditKey::Insert('a'));
    f.edit(EditKey::Insert('c'));
    f.edit(EditKey::Left);
    f.edit(EditKey::Insert('b'));
    assert_eq!(text_of(&f), "abc");
    assert_eq!(f.cursor(), 2);
    f.edit(EditKey::Backspace);
    assert_eq!(text_of(&f), "ac");
    assert_eq!(f.cursor(), 1);
    f.edit(EditKey::Delete);
    assert_eq!(text_of(&f), "a");
    f.edit(EditKey::Home);
    assert_eq!(f.cursor(), 0);
    f.edit(EditKey::Backspace);
    assert_eq!(text_of(&f), "a");
    f.edit(EditKey::End);
    assert_eq!(f.cursor(), 1);
    f.reset();
    assert_eq!(text_of(&f), "");
    assert_eq!(f.cursor(), 0);
}

#[test]
fn field_scrolls_to_keep_cursor_visible() {
    let mut f = FieldBuffer::new();
    for c in "abcdefghij".chars() {
        f.edit(EditKey::Insert(c));
    }
    assert_eq!(f.visual_cursor(), 10);
    assert_eq!(f.visual_scroll(20), 0);
    assert_eq!(f.visual_scroll(4), 6);
    let rect = Rect { x: 10, y: 5, width: 7, height: 3 };
    assert_eq!(field_cursor(rect, &f), (15, 6));
}

#[test]
fn popup_is_centred() {
    let r = centered_rect(50, 50, Rect { x: 0, y: 0, width: 100, height: 100 });
    assert_eq!(r, Rect { x: 25, y: 25, width: 50, height: 50 });
}

#[test]
fn screen_plan_follows_mode() {
    let area = Rect { x: 0, y: 0, width: 80, height: 24 };
    let mut app = App::new(1);
    let p = app.draw(area);
    assert!(p.cursor.is_none() && p.deletion.is_none() && p.new_budget.is_none());
    assert_eq!(p.gauge.y, 0);
    assert!(p.kind_field.width > p.amount_field.width);
    app.handle_key(Key::Char('a'), false);
    type_text(&mut app, "ab");
    let p = app.draw(area);
    assert_eq!(p.cursor, Some((p.kind_field.x + 3, p.kind_field.y + 1)));
    assert_eq!(app.focused(), Some(InputLocation::Type));
    app.handle_key(Key::Esc, false);
    app.handle_key(Key::Delete, false);
    let p = app.draw(area);
    let d = p.deletion.unwrap();
    assert_eq!(p.cursor, Some((d.x + 1, d.y + 1)));
    assert_eq!(app.focused(), None);
    app.handle_key(Key::Esc, false);
    app.handle_key(Key::Char('b'), false);
    let p = app.draw(area);
    let (amount, month) = p.new_budget.unwrap();
    assert!(amount.x < month.x);
    assert_eq!(p.cursor, Some((amount.x + 1, amount.y + 1)));
}

#[test]
fn bootstrap_only_without_budget() {
    let mut app = App::new(1);
    let b = app.bootstrap_budget().unwrap();
    assert_eq!(b.amount, 100000);
    assert_eq!(b.month, "202501");
    app.load(Some(Budget { id: 1, amount: 100000, month: "202501".to_string() }), vec![]);
    assert!(app.bootstrap_budget().is_none());
}

#[test]
fn extra_decimals_must_be_zeros() {
    assert_eq!(parse_amount(&"2.500".to_string()), Some(250));
    assert_eq!(parse_amount(&"-7.2000".to_string()), Some(-720));
    assert_eq!(parse_amount(&"1.239".to_string()), None);
    assert_eq!(parse_amount(&"25.555".to_string()), None);
    assert_eq!(parse_amount(&"0.0001".to_string()), None);
}

#[test]
fn payment_with_trailing_zeros_is_requested() {
    let mut app = App::new(3);
    app.handle_key(Key::Char('a'), false);
    type_text(&mut app, "rent");
    app.handle_key(Key::Tab, false);
    type_text(&mut app, "2.500");
    match app.handle_key(Key::Enter, false) {
        Action::InsertPayment(p) => assert_eq!(p.amount, 250),
        _ => panic!("expected a payment request"),
    }
    assert_eq!(app.payment_input.1.visual_scroll(10), 0);
}

#[test]
fn word_and_line_edits() {
    let mut app = App::new(1);
    app.handle_key(Key::Char('a'), false);
    type_text(&mut app, "big lunch");
    app.handle_key(Key::DeleteWordBack, false);
    assert_eq!(text_of(&app.payment_input.0), "big ");
    app.handle_key(Key::WordLeft, false);
    assert_eq!(app.payment_input.0.cursor(), 0);
    app.handle_key(Key::End, false);
    app.handle_key(Key::Left, false);
    app.handle_key(Key::DeleteToEnd, false);
    assert_eq!(text_of(&app.payment_input.0), "big");
    app.handle_key(Key::DeleteLine, false);
    assert_eq!(text_of(&app.payment_input.0), "");
    assert_eq!(app.payment_input.0.cursor(), 0);
}

#[test]
fn cursor_stays_in_field_box() {
    let mut f = FieldBuffer::new();
    for c in "a long text that overflows".chars() {
        f.edit(EditKey::Insert(c));
    }
    let rect = Rect { x: 2, y: 1, width: 8, height: 3 };
    let (x, y) = field_cursor(rect, &f);
    assert!(x <= rect.x + rect.width - 2);
    assert_eq!(y, 2);
}

#[test]
fn popup_edges_are_near_their_percentages() {
    let r = centered_rect(50, 50, Rect { x: 3, y: 2, width: 41, height: 17 });
    let left = r.x - 3;
    let right = 3 + 41 - (r.x + r.width);
    assert!((left as i32 - right as i32).abs() <= 1);
    assert!((r.width as i32 * 100 - 41 * 50).abs() <= 100);
    let top = r.y - 2;
    let bottom = 2 + 17 - (r.y + r.height);
    assert!((top as i32 - bottom as i32).abs() <= 1);
}
