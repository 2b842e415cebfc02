use sukkirisu::extract::element_texts;
use sukkirisu::extract::extract_fortune;
use sukkirisu::extract::first_of;
use sukkirisu::extract::read_date_runs;
use sukkirisu::extract::read_digit_runs;
use sukkirisu::extract::read_fragment;
use sukkirisu::extract::texts_in;
use sukkirisu::extract::Addressing;
use sukkirisu::fortune::ExtractionError;
use sukkirisu::fortune::LabelStyle;

fn block(month: i32, marker: &str, rank: &str) -> String {
    format!(
        "<div id=\"month{m}\" class=\"{k}\"><div class=\"row1\"><p class=\"month\"><span>{m}</span>月</p>\
         <p class=\"rankTxt\">{r}</p></div><div class=\"row2\"><p>{m}月の運勢</p>\
         <div id=\"color\">色{m}</div></div></div>",
        m = month,
        k = marker,
        r = rank
    )
}

fn page_with(blocks: &str) -> String {
    format!(
        "<!DOCTYPE html><html><head><title>t</title></head><body>\
         <p class=\"date\">\n  更新日：3月15日  </p>{}</body></html>",
        blocks
    )
}

fn full_page() -> String {
    let mut blocks = String::new();
    blocks.push_str(&block(1, "type1", "1位"));
    for m in 2..=6 {
        blocks.push_str(&block(m, "type2", &format!("{}位", m)));
    }
    for m in 7..=11 {
        blocks.push_str(&block(m, "type3", &format!("{}位", m)));
    }
    blocks.push_str(&block(12, "type4", "12位"));
    page_with(&blocks)
}

#[test]
fn every_month_with_the_top_marker_gets_the_top_label() {
    for m in 1..=12 {
        let page = page_with(&block(m, "type1", "1位"));
        let want = format!(
            "{m}月: ✨✨超スッキリす！！✨✨\n{m}月の運勢\nラッキーカラー: 色{m}\n更新日: 3/15",
            m = m
        );
        assert_eq!(extract_fortune(LabelStyle::Emoji, Addressing::ById, &page, m), Ok(want));
    }
}

#[test]
fn second_and_third_tier_carry_the_rank_of_the_page() {
    let good = page_with(&block(4, "type2", "5位"));
    assert_eq!(
        extract_fortune(LabelStyle::Emoji, Addressing::ById, &good, 4),
        Ok(String::from("4月: スッキリす🍀 5位\n4月の運勢\nラッキーカラー: 色4\n更新日: 3/15"))
    );
    let fair = page_with(&block(4, "type3", "5位"));
    assert_eq!(
        extract_fortune(LabelStyle::Emoji, Addressing::ById, &fair, 4),
        Ok(String::from("4月: まあまあスッキリす🍥 5位\n4月の運勢\nラッキーカラー: 色4\n更新日: 3/15"))
    );
    assert_eq!(
        extract_fortune(LabelStyle::Plain, Addressing::ById, &fair, 4),
        Ok(String::from("4月: まあまあスッキリす 5位\n4月の運勢\nラッキーカラー: 色4\n更新日: 3/15"))
    );
}

#[test]
fn unknown_marker_gets_the_bottom_label() {
    let page = full_page();
    assert_eq!(
        extract_fortune(LabelStyle::Emoji, Addressing::ById, &page, 12),
        Ok(String::from("12月: ガッカリす...💧\n12月の運勢\nラッキーカラー: 色12\n更新日: 3/15"))
    );
    let bare = page_with(
        "<div id=\"month3\"><p>静かな一日</p><div id=\"color\">白</div></div>",
    );
    assert_eq!(
        extract_fortune(LabelStyle::Plain, Addressing::ById, &bare, 3),
        Ok(String::from("3月: ガッカリす...\n静かな一日\nラッキーカラー: 白\n更新日: 3/15"))
    );
}

#[test]
fn each_month_is_read_from_its_own_block() {
    let page = full_page();
    assert_eq!(
        extract_fortune(LabelStyle::Emoji, Addressing::ById, &page, 2),
        Ok(String::from("2月: スッキリす🍀 2位\n2月の運勢\nラッキーカラー: 色2\n更新日: 3/15"))
    );
    assert_eq!(
        extract_fortune(LabelStyle::Emoji, Addressing::ById, &page, 11),
        Ok(String::from("11月: まあまあスッキリす🍥 11位\n11月の運勢\nラッキーカラー: 色11\n更新日: 3/15"))
    );
    assert_eq!(
        extract_fortune(LabelStyle::Emoji, Addressing::ById, &page, 1),
        Ok(String::from("1月: ✨✨超スッキリす！！✨✨\n1月の運勢\nラッキーカラー: 色1\n更新日: 3/15"))
    );
}

#[test]
fn date_line_gives_month_and_day() {
    assert_eq!(read_digit_runs("更新日：3月15日"), vec![String::from("3"), String::from("15")]);
    assert_eq!(read_digit_runs("  更新日：3月15日 \n"), vec![String::from("3"), String::from("15")]);
    assert_eq!(read_digit_runs("更新日"), Vec::<String>::new());
    assert_eq!(read_digit_runs(""), Vec::<String>::new());
    assert_eq!(read_digit_runs("2024年12月1日"), vec![
        String::from("2024"),
        String::from("12"),
        String::from("1")
    ]);
}

#[test]
fn date_runs_are_read_from_the_date_line_of_the_page() {
    assert_eq!(read_date_runs(&full_page()), vec![String::from("3"), String::from("15")]);
    assert_eq!(
        read_date_runs("<html><body><p>3月15日</p></body></html>"),
        Vec::<String>::new()
    );
}

#[test]
fn date_line_is_the_paragraph_whose_class_is_exactly_date() {
    let page = format!(
        "<html><body><p class=\"date old\">1月2日</p>{}</body></html>",
        block(6, "type1", "1位")
    );
    assert_eq!(read_date_runs(&page), Vec::<String>::new());
    assert_eq!(
        extract_fortune(LabelStyle::Emoji, Addressing::ById, &page, 6),
        Err(ExtractionError::MalformedPage)
    );
}

#[test]
fn missing_block_is_not_found() {
    let page = page_with(&block(4, "type1", "1位"));
    assert_eq!(extract_fortune(LabelStyle::Emoji, Addressing::ById, &page, 5), Err(ExtractionError::NotFound));
    assert_eq!(extract_fortune(LabelStyle::Emoji, Addressing::ById, "", 5), Err(ExtractionError::NotFound));
    assert!(read_fragment(&page, 5).is_none());
    assert!(read_fragment(&page, 4).is_some());
}

#[test]
fn second_tier_without_rank_label_is_malformed() {
    let page = page_with(
        "<div id=\"month6\" class=\"type2\"><p>良い一日</p><div id=\"color\">緑</div></div>",
    );
    assert_eq!(extract_fortune(LabelStyle::Emoji, Addressing::ById, &page, 6), Err(ExtractionError::MalformedPage));
}

#[test]
fn page_without_date_or_colour_is_malformed() {
    let no_date = format!("<html><body>{}</body></html>", block(6, "type1", "1位"));
    assert_eq!(extract_fortune(LabelStyle::Emoji, Addressing::ById, &no_date, 6), Err(ExtractionError::MalformedPage));
    let one_run = format!(
        "<html><body><p class=\"date\">15日</p>{}</body></html>",
        block(6, "type1", "1位")
    );
    assert_eq!(extract_fortune(LabelStyle::Emoji, Addressing::ById, &one_run, 6), Err(ExtractionError::MalformedPage));
    let no_color = page_with("<div id=\"month6\" class=\"type1\"><p>良い一日</p></div>");
    assert_eq!(extract_fortune(LabelStyle::Emoji, Addressing::ById, &no_color, 6), Err(ExtractionError::MalformedPage));
}

#[test]
fn two_calls_on_one_page_agree() {
    let page = full_page();
    for m in 0..=13 {
        let first = extract_fortune(LabelStyle::Emoji, Addressing::ById, &page, m);
        let second = extract_fortune(LabelStyle::Emoji, Addressing::ById, &page, m);
        assert_eq!(first, second);
    }
}

#[test]
fn months_out_of_range_are_refused() {
    let page = full_page();
    for m in [0, 13, -1, 100] {
        assert_eq!(extract_fortune(LabelStyle::Emoji, Addressing::ById, &page, m), Err(ExtractionError::InvalidInput));
    }
}

#[test]
fn fragment_holds_marker_label_paragraphs_and_colour() {
    let page = full_page();
    let f = read_fragment(&page, 8).unwrap();
    assert_eq!(f.marker, Some(String::from("type3")));
    assert_eq!(f.rank_label, Some(String::from("8位")));
    assert_eq!(f.paragraphs, vec![
        Some(String::from("8")),
        Some(String::from("8位")),
        Some(String::from("8月の運勢"))
    ]);
    assert_eq!(f.lucky_color, Some(String::from("色8")));
}

#[test]
fn element_texts_takes_the_first_text_node() {
    let found = Some(vec![
        vec![String::from("a"), String::from("b")],
        Vec::new(),
        vec![String::from("c")],
    ]);
    let texts = element_texts(&found);
    assert_eq!(texts, vec![Some(String::from("a")), None, Some(String::from("c"))]);
    assert_eq!(first_of(&texts), Some(String::from("a")));
    assert_eq!(element_texts(&None), Vec::<Option<String>>::new());
    assert_eq!(texts_in(&vec![Vec::new(), vec![String::from("z")]]), vec![None, Some(String::from("z"))]);
    assert_eq!(first_of(&Vec::new()), None);
    assert_eq!(first_of(&vec![None, Some(String::from("x"))]), None);
}
