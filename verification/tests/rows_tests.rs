use sukkirisu::extract::extract_fortune;
use sukkirisu::extract::locate;
use sukkirisu::extract::Addressing;
use sukkirisu::fortune::ExtractionError;
use sukkirisu::fortune::LabelStyle;
use sukkirisu::rows::display_rank;
use sukkirisu::rows::find_place;
use sukkirisu::rows::fragment_of_place;
use sukkirisu::rows::rank_label;
use sukkirisu::rows::rank_marker;
use sukkirisu::rows::read_row_fragment;
use sukkirisu::rows::row_texts;

fn row(month: &str, description: &str, color: &str) -> String {
    format!(
        "<li><div class=\"row1\"><p class=\"month\">{}</p><p class=\"unit\">月</p></div>\
         <div class=\"row2\"><p>lead</p><p>{}</p><div>{}</div><div>other</div></div></li>",
        month, description, color
    )
}

fn listed(months: &[i32]) -> String {
    let mut rows = String::new();
    for m in months {
        rows.push_str(&row(&format!("{}", m), &format!("{}月の運勢", m), &format!("色{}", m)));
    }
    format!(
        "<html><body><p class=\"date\">(7月9日更新)</p><ul>{}</ul></body></html>",
        rows
    )
}

fn order() -> Vec<i32> {
    vec![5, 3, 8, 1, 12, 10, 2, 7, 4, 11, 6, 9]
}

#[test]
fn places_carry_the_ranks_two_to_twelve_and_then_one() {
    for place in 0..=10usize {
        assert_eq!(display_rank(place), Some(place as u8 + 2));
    }
    assert_eq!(display_rank(11), Some(1));
    assert_eq!(display_rank(12), None);
    assert_eq!(display_rank(usize::MAX), None);
}

#[test]
fn ranks_have_the_markers_of_their_tiers() {
    assert_eq!(rank_marker(1), Some(String::from("type1")));
    for rank in 2..=6 {
        assert_eq!(rank_marker(rank), Some(String::from("type2")));
    }
    for rank in 7..=11 {
        assert_eq!(rank_marker(rank), Some(String::from("type3")));
    }
    assert_eq!(rank_marker(12), None);
    assert_eq!(rank_marker(0), None);
    assert_eq!(rank_marker(255), None);
}

#[test]
fn rank_label_is_number_and_counter() {
    assert_eq!(rank_label(2), "2位");
    assert_eq!(rank_label(11), "11位");
}

#[test]
fn first_place_in_the_list_is_rank_two() {
    let page = listed(&order());
    assert_eq!(
        extract_fortune(LabelStyle::Emoji, Addressing::ByRow, &page, 5),
        Ok(String::from("5月: スッキリす🍀 2位\n5月の運勢\nラッキーカラー: 色5\n更新日: 7/9"))
    );
}

#[test]
fn last_place_in_the_list_is_rank_one() {
    let page = listed(&order());
    assert_eq!(
        extract_fortune(LabelStyle::Emoji, Addressing::ByRow, &page, 9),
        Ok(String::from("9月: ✨✨超スッキリす！！✨✨\n9月の運勢\nラッキーカラー: 色9\n更新日: 7/9"))
    );
}

#[test]
fn place_before_the_last_is_rank_twelve() {
    let page = listed(&order());
    assert_eq!(
        extract_fortune(LabelStyle::Emoji, Addressing::ByRow, &page, 6),
        Ok(String::from("6月: ガッカリす...💧\n6月の運勢\nラッキーカラー: 色6\n更新日: 7/9"))
    );
}

#[test]
fn middle_places_are_fair_with_their_rank() {
    let page = listed(&order());
    assert_eq!(
        extract_fortune(LabelStyle::Emoji, Addressing::ByRow, &page, 10),
        Ok(String::from("10月: まあまあスッキリす🍥 7位\n10月の運勢\nラッキーカラー: 色10\n更新日: 7/9"))
    );
    assert_eq!(
        extract_fortune(LabelStyle::Plain, Addressing::ByRow, &page, 12),
        Ok(String::from("12月: スッキリす 6位\n12月の運勢\nラッキーカラー: 色12\n更新日: 7/9"))
    );
    assert_eq!(
        extract_fortune(LabelStyle::Plain, Addressing::ByRow, &page, 11),
        Ok(String::from("11月: まあまあスッキリす 11位\n11月の運勢\nラッキーカラー: 色11\n更新日: 7/9"))
    );
}

#[test]
fn month_that_is_not_listed_is_not_found() {
    let page = listed(&[5, 3, 8]);
    assert_eq!(
        extract_fortune(LabelStyle::Emoji, Addressing::ByRow, &page, 4),
        Err(ExtractionError::NotFound)
    );
    assert_eq!(
        extract_fortune(LabelStyle::Emoji, Addressing::ByRow, "", 4),
        Err(ExtractionError::NotFound)
    );
    assert_eq!(
        extract_fortune(LabelStyle::Emoji, Addressing::ById, &page, 5),
        Err(ExtractionError::NotFound)
    );
}

#[test]
fn place_past_the_twelfth_is_malformed() {
    let mut months = vec![0; 12];
    months.push(4);
    let page = listed(&months);
    assert_eq!(
        extract_fortune(LabelStyle::Emoji, Addressing::ByRow, &page, 4),
        Err(ExtractionError::MalformedPage)
    );
}

#[test]
fn row_without_details_is_malformed() {
    let page = "<html><body><p class=\"date\">7月9日</p>\
                <div class=\"row1\"><p class=\"month\">4</p></div></body></html>";
    assert_eq!(
        extract_fortune(LabelStyle::Emoji, Addressing::ByRow, page, 4),
        Err(ExtractionError::MalformedPage)
    );
    let f = read_row_fragment(page, 4).unwrap();
    assert_eq!(f.marker, Some(String::from("type2")));
    assert_eq!(f.rank_label, Some(String::from("2位")));
    assert_eq!(f.paragraphs, Vec::<Option<String>>::new());
    assert_eq!(f.lucky_color, None);
}

#[test]
fn row_fragment_holds_every_paragraph_and_the_first_div() {
    let page = listed(&order());
    let f = locate(Addressing::ByRow, &page, 8).unwrap();
    assert_eq!(f.marker, Some(String::from("type2")));
    assert_eq!(f.rank_label, Some(String::from("4位")));
    assert_eq!(f.paragraphs, vec![Some(String::from("lead")), Some(String::from("8月の運勢"))]);
    assert_eq!(f.lucky_color, Some(String::from("色8")));
}

#[test]
fn description_of_a_row_is_its_last_paragraph() {
    let page = "<html><body><p class=\"date\">7月9日</p>\
                <div class=\"row1\"><p class=\"month\">4</p></div>\
                <div class=\"row2\"><p>A</p><p>B</p><div>緑</div></div></body></html>";
    assert_eq!(
        extract_fortune(LabelStyle::Plain, Addressing::ByRow, page, 4),
        Ok(String::from("4月: スッキリす 2位\nB\nラッキーカラー: 緑\n更新日: 7/9"))
    );
}

#[test]
fn label_row_that_names_no_month_is_malformed() {
    let unreadable = format!(
        "<html><body><p class=\"date\">7月9日</p>{}{}</body></html>",
        row("4", "d", "c"),
        row("x", "d", "c")
    );
    assert_eq!(
        extract_fortune(LabelStyle::Emoji, Addressing::ByRow, &unreadable, 4),
        Err(ExtractionError::MalformedPage)
    );
    let unlabelled = format!(
        "<html><body><p class=\"date\">7月9日</p><div class=\"row1\"></div>{}</body></html>",
        row("4", "d", "c")
    );
    assert_eq!(
        extract_fortune(LabelStyle::Emoji, Addressing::ByRow, &unlabelled, 4),
        Err(ExtractionError::MalformedPage)
    );
}

#[test]
fn find_place_takes_the_first_row_that_names_the_month() {
    let rows = vec![
        vec![vec![String::from("13")]],
        vec![vec![String::from("7"), String::from("月")]],
        vec![vec![String::from("3")], vec![String::from("7")]],
        vec![vec![String::from("-2")]],
        vec![vec![String::from("7")]],
    ];
    assert_eq!(find_place(&rows, 7), Ok(1));
    assert_eq!(find_place(&rows, 3), Ok(2));
    assert_eq!(find_place(&rows, 1), Err(ExtractionError::NotFound));
    assert_eq!(find_place(&rows, 13), Err(ExtractionError::NotFound));
    assert_eq!(find_place(&Vec::new(), 1), Err(ExtractionError::NotFound));
}

#[test]
fn find_place_refuses_a_list_with_an_unreadable_row() {
    let lettered = vec![vec![vec![String::from("7")]], vec![vec![String::from("x")]]];
    let unlabelled = vec![vec![vec![String::from("7")]], Vec::new()];
    let textless = vec![vec![Vec::new()], vec![vec![String::from("7")]]];
    let empty = vec![vec![vec![String::new()]], vec![vec![String::from("7")]]];
    for rows in [lettered, unlabelled, textless, empty] {
        assert_eq!(find_place(&rows, 7), Err(ExtractionError::MalformedPage));
        assert_eq!(find_place(&rows, 1), Err(ExtractionError::MalformedPage));
    }
}

#[test]
fn row_texts_are_the_first_texts_of_the_row_at_the_place() {
    let rows = Some(vec![
        vec![vec![String::from("a"), String::from("b")], vec![String::from("c")]],
        vec![Vec::new(), vec![String::from("d")]],
        Vec::new(),
    ]);
    assert_eq!(row_texts(&rows, 0), vec![Some(String::from("a")), Some(String::from("c"))]);
    assert_eq!(row_texts(&rows, 1), vec![None, Some(String::from("d"))]);
    assert_eq!(row_texts(&rows, 2), Vec::<Option<String>>::new());
    assert_eq!(row_texts(&rows, 3), Vec::<Option<String>>::new());
    assert_eq!(row_texts(&None, 0), Vec::<Option<String>>::new());
}

#[test]
fn fragment_of_place_stands_for_the_rank() {
    let paragraphs = vec![Some(String::from("a")), Some(String::from("d"))];
    let f = fragment_of_place(6, paragraphs, Some(String::from("c"))).unwrap();
    assert_eq!(f.marker, Some(String::from("type3")));
    assert_eq!(f.rank_label, Some(String::from("8位")));
    assert_eq!(f.paragraphs, vec![Some(String::from("a")), Some(String::from("d"))]);
    assert_eq!(f.lucky_color, Some(String::from("c")));
    let bottom = fragment_of_place(10, Vec::new(), None).unwrap();
    assert_eq!(bottom.marker, None);
    assert_eq!(bottom.rank_label, Some(String::from("12位")));
    assert!(fragment_of_place(12, Vec::new(), None).is_err());
}

#[test]
fn two_calls_on_one_list_agree() {
    let page = listed(&order());
    for m in 0..=13 {
        assert_eq!(
            extract_fortune(LabelStyle::Emoji, Addressing::ByRow, &page, m),
            extract_fortune(LabelStyle::Emoji, Addressing::ByRow, &page, m)
        );
    }
}
