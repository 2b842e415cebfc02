use sukkirisu::event::diagnose_event;
use sukkirisu::event::diagnose_value;
use sukkirisu::event::Event;
use sukkirisu::event::MonthValue;
use sukkirisu::event::ReplyShape;
use sukkirisu::input::InputFault;

#[test]
fn command_event_reads_its_form_body() {
    let event = Event::Command { body: String::from("token=t&text=7") };
    assert_eq!(diagnose_event(&event), Ok((7, ReplyShape::Command)));
    let other_field = Event::Command { body: String::from("context=9&text=13") };
    assert_eq!(diagnose_event(&other_field), Err(InputFault::OutOfRange));
    let empty = Event::Command { body: String::new() };
    assert_eq!(diagnose_event(&empty), Err(InputFault::EmptyBody));
    let no_month = Event::Command { body: String::from("text=") };
    assert_eq!(diagnose_event(&no_month), Err(InputFault::EmptyMonth));
    let letters = Event::Command { body: String::from("text=abc") };
    assert_eq!(diagnose_event(&letters), Err(InputFault::NotANumber));
}

#[test]
fn plain_event_reads_its_month_field() {
    let text = Event::Plain { month: MonthValue::Text(String::from("12")) };
    assert_eq!(diagnose_event(&text), Ok((12, ReplyShape::Message)));
    let number = Event::Plain { month: MonthValue::Number(3) };
    assert_eq!(diagnose_event(&number), Ok((3, ReplyShape::Message)));
    let absent = Event::Plain { month: MonthValue::Absent };
    assert_eq!(diagnose_event(&absent), Err(InputFault::EmptyMonth));
    let other = Event::Plain { month: MonthValue::Other };
    assert_eq!(diagnose_event(&other), Err(InputFault::NotANumber));
}

#[test]
fn unreadable_event_has_no_body() {
    assert_eq!(diagnose_event(&Event::Unreadable), Err(InputFault::EmptyBody));
}

#[test]
fn month_values_are_checked_like_month_texts() {
    assert_eq!(diagnose_value(&MonthValue::Number(1)), Ok(1));
    assert_eq!(diagnose_value(&MonthValue::Number(12)), Ok(12));
    assert_eq!(diagnose_value(&MonthValue::Number(0)), Err(InputFault::OutOfRange));
    assert_eq!(diagnose_value(&MonthValue::Number(13)), Err(InputFault::OutOfRange));
    assert_eq!(diagnose_value(&MonthValue::Number(-1)), Err(InputFault::OutOfRange));
    assert_eq!(diagnose_value(&MonthValue::Number(4_294_967_297)), Err(InputFault::OutOfRange));
    assert_eq!(diagnose_value(&MonthValue::Number(i64::MIN)), Err(InputFault::OutOfRange));
    assert_eq!(diagnose_value(&MonthValue::Text(String::new())), Err(InputFault::EmptyMonth));
    assert_eq!(diagnose_value(&MonthValue::Text(String::from("abc"))), Err(InputFault::NotANumber));
    assert_eq!(diagnose_value(&MonthValue::Text(String::from("13"))), Err(InputFault::OutOfRange));
    assert_eq!(diagnose_value(&MonthValue::Text(String::from("+4"))), Ok(4));
}
