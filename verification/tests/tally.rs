use chrono::Datelike;
use kpi_dsa::app::{copy_notice, matches_query, KpiApp};
use kpi_dsa::catalog::{all_products, ProductDef};
use kpi_dsa::clock::{format_day_month, today_dd_mm};
use kpi_dsa::product::{points_label, Product};
use kpi_dsa::storage::{load_monthly, save_monthly};

fn sell(app: &mut KpiApp, index: usize, times: u32) {
    for _ in 0..times {
        app.products[index].increment();
    }
}

#[test]
fn catalog_lists_the_products_in_order() {
    let defs = all_products();
    assert_eq!(defs.len(), 25);
    assert_eq!(defs[0].name, "СС от 250");
    assert_eq!(defs[0].note, "Потр. кредит со страховкой");
    assert_eq!(defs[0].points, 332);
    assert!(!defs[0].manual);
    assert_eq!(defs[4].name, "Кк");
    assert!(defs[4].manual);
    assert_eq!((defs[4].points, defs[4].min_points, defs[4].max_points), (60, 60, 90));
    assert_eq!(defs[15].name, "Выдача ЗП ДК");
    assert_eq!((defs[15].min_points, defs[15].max_points), (41, 62));
    assert_eq!(defs[24].name, "ВТБ Мобайл");
    assert_eq!(defs[24].points, 32);
    for d in &defs {
        assert!(d.min_points <= d.points && d.points <= d.max_points);
    }
}

#[test]
fn fixed_and_manual_definitions() {
    let f = ProductDef::fixed("A", "note", 7);
    assert_eq!((f.points, f.manual, f.min_points, f.max_points), (7, false, 7, 7));
    let m = ProductDef::manual("B", "", 10, 20);
    assert_eq!((m.points, m.manual, m.min_points, m.max_points), (10, true, 10, 20));
}

#[test]
fn fresh_tally() {
    let app = KpiApp::new(None);
    assert_eq!(app.products.len(), 25);
    assert!(app.products.iter().all(|p| p.count == 0 && p.points == p.def.points));
    assert_eq!(app.clients_served, "0/0");
    assert_eq!(app.npl_connected, "0/0");
    assert_eq!(app.search, "");
    assert_eq!(app.notice, "");
    assert_eq!(app.monthly_total, 0);
    assert!(!app.arm_reset);
    assert_eq!(app.daily_total(), 0);
}

#[test]
fn fresh_tally_reads_the_stored_total() {
    assert_eq!(KpiApp::new(Some(" 1234\n")).monthly_total, 1234);
    assert_eq!(KpiApp::new(Some("-77")).monthly_total, -77);
    assert_eq!(KpiApp::new(Some("abc")).monthly_total, 0);
    assert_eq!(KpiApp::new(Some("")).monthly_total, 0);
}

#[test]
fn daily_total_sums_count_times_points() {
    let mut app = KpiApp::new(None);
    sell(&mut app, 0, 2);
    app.products[4].set_points(75);
    sell(&mut app, 4, 3);
    assert_eq!(app.daily_total(), 332 * 2 + 75 * 3);
    assert_eq!(app.checked_daily_total(), Some(889));
}

#[test]
fn checked_daily_total_reports_overflow() {
    let mut app = KpiApp::new(None);
    for i in 0..3 {
        app.products[i].count = u32::MAX;
        app.products[i].points = i32::MAX;
    }
    assert_eq!(app.checked_daily_total(), None);
    app.products[2].count = 0;
    assert_eq!(app.checked_daily_total(), None);
    app.products[1].count = 0;
    let expected = (u32::MAX as i64) * (i32::MAX as i64);
    assert_eq!(app.checked_daily_total(), Some(expected));
}

#[test]
fn saving_an_empty_day_is_skipped() {
    let mut app = KpiApp::new(Some("500"));
    app.arm_reset = true;
    assert_eq!(app.save_day(), None);
    assert_eq!(app.monthly_total, 500);
    assert!(app.arm_reset);
    assert_eq!(app.notice, "Нет набранных баллов за день — сохранение пропущено.");
}

#[test]
fn saving_a_day_moves_its_points_into_the_month() {
    let mut app = KpiApp::new(Some("100"));
    sell(&mut app, 0, 2);
    app.products[4].set_points(75);
    sell(&mut app, 4, 3);
    app.arm_reset = true;
    assert_eq!(app.save_day(), Some(989));
    assert_eq!(app.monthly_total, 989);
    assert!(app.products.iter().all(|p| p.count == 0));
    assert_eq!(app.products[4].points, 75);
    assert!(!app.arm_reset);
    assert_eq!(app.notice, "День сохранён (+889 б.). Дневные счётчики обнулены.");
    assert_eq!(app.daily_total(), 0);
}

#[test]
fn a_second_save_is_skipped() {
    let mut app = KpiApp::new(None);
    sell(&mut app, 1, 1);
    assert_eq!(app.save_day(), Some(137));
    assert_eq!(app.save_day(), None);
    assert_eq!(app.monthly_total, 137);
    assert_eq!(app.notice, "Нет набранных баллов за день — сохранение пропущено.");
}

#[test]
fn negative_days_are_saved_too() {
    let mut app = KpiApp::new(None);
    app.products[0].count = 1;
    app.products[0].points = -40;
    assert_eq!(app.save_day(), Some(-40));
    assert_eq!(app.notice, "День сохранён (+-40 б.). Дневные счётчики обнулены.");
}

#[test]
fn resetting_the_month_needs_confirmation() {
    let mut app = KpiApp::new(Some("4200"));
    assert_eq!(app.reset_label(), "Сброс месяца");
    assert_eq!(app.reset_month(), None);
    assert_eq!(app.monthly_total, 4200);
    assert!(app.arm_reset);
    assert_eq!(app.notice, "Нажмите «Подтвердить сброс?» ещё раз");
    assert_eq!(app.reset_label(), "Подтвердить сброс?");
    assert_eq!(app.reset_month(), Some(0));
    assert_eq!(app.monthly_total, 0);
    assert!(!app.arm_reset);
    assert_eq!(app.notice, "Общий итог сброшен.");
}

#[test]
fn a_save_disarms_the_reset() {
    let mut app = KpiApp::new(Some("10"));
    assert_eq!(app.reset_month(), None);
    sell(&mut app, 3, 1);
    assert_eq!(app.save_day(), Some(60));
    assert_eq!(app.reset_month(), None);
    assert_eq!(app.monthly_total, 60);
}

fn expected_report(app: &KpiApp, date: &str, clients: &str, npl: &str) -> String {
    let mut out = format!("Итог дня: {}\n\nКлиентов обслужено - {}\nПодключено НПЛ - {}\n\n", date, clients, npl);
    for p in &app.products {
        out.push_str(&format!("{} - {}\n", p.def.name, p.count));
    }
    out.push_str(&format!("\nПрк - 0/{}\n", app.daily_total()));
    out
}

#[test]
fn report_lists_everything() {
    let mut app = KpiApp::new(None);
    app.clients_served = "  12/15 \n".to_string();
    app.npl_connected = "3/4".to_string();
    sell(&mut app, 2, 2);
    sell(&mut app, 24, 1);
    let report = app.report_text("05.03");
    assert_eq!(report, expected_report(&app, "05.03", "12/15", "3/4"));
    assert!(report.starts_with("Итог дня: 05.03\n\nКлиентов обслужено - 12/15\nПодключено НПЛ - 3/4\n\nСС от 250 - 0\n"));
    assert!(report.contains("\nИзп/СЗП - 2\n"));
    assert!(report.ends_with("ВТБ Мобайл - 1\n\nПрк - 0/578\n"));
}

#[test]
fn report_is_dated_today() {
    let app = KpiApp::new(None);
    let report = app.build_report();
    let today = today_dd_mm();
    assert_eq!(report, expected_report(&app, &today, "0/0", "0/0"));
}

#[test]
fn copying_disarms_the_reset_and_records_the_outcome() {
    let mut app = KpiApp::new(None);
    app.arm_reset = true;
    let report = app.start_copy();
    assert!(!app.arm_reset);
    assert!(report.starts_with("Итог дня: "));
    app.finish_copy(false);
    assert_eq!(app.notice, "Не удалось скопировать: нужен HTTPS (безопасное соединение).");
    app.finish_copy(true);
    assert!(app.notice.starts_with("✓ Отчёт скопирован ("));
    assert!(app.notice.ends_with(")"));
    assert_eq!(copy_notice(true, "01.12"), "✓ Отчёт скопирован (01.12)");
}

#[test]
fn today_is_written_day_dot_month() {
    let now = chrono::Local::now();
    let today = today_dd_mm();
    assert_eq!(today, format!("{:02}.{:02}", now.day(), now.month()));
    assert_eq!(format_day_month(5, 3), "05.03");
    assert_eq!(format_day_month(31, 12), "31.12");
}

#[test]
fn search_filters_by_name_and_note() {
    let mut app = KpiApp::new(None);
    assert_eq!(app.visible_products(), (0..25).collect::<Vec<usize>>());
    app.search = "втб".to_string();
    assert_eq!(app.visible_products(), vec![7, 12, 24]);
    app.search = "  БИОМЕТРИЯ ".to_string();
    assert_eq!(app.visible_products(), vec![13]);
    app.search = "pos".to_string();
    assert_eq!(app.visible_products(), vec![15]);
    app.search = "   ".to_string();
    assert_eq!(app.visible_products().len(), 25);
    app.search = "нет такого".to_string();
    assert!(app.visible_products().is_empty());
}

#[test]
fn query_matching() {
    assert!(matches_query("abc", ""));
    assert!(matches_query("abc", "bc"));
    assert!(!matches_query("abc", "cb"));
    assert!(!matches_query("", "a"));
}

#[test]
fn stored_total_reads_back() {
    for v in [0i64, 7, -7, 1234567, i64::MAX, i64::MIN] {
        let text = save_monthly(v);
        assert_eq!(text, v.to_string());
        assert_eq!(load_monthly(Some(&text)), v);
    }
    assert_eq!(load_monthly(None), 0);
    assert_eq!(load_monthly(Some("  42  ")), 42);
    assert_eq!(load_monthly(Some("4 2")), 0);
    assert_eq!(load_monthly(Some("99999999999999999999")), 0);
}

#[test]
fn rows_count_sales() {
    let mut p = Product::from_def(ProductDef::fixed("X", "", 50));
    p.decrement();
    assert_eq!(p.count, 0);
    p.increment();
    p.increment();
    assert_eq!(p.count, 2);
    assert_eq!(p.row_total(), 100);
    assert_eq!(p.row_label(), Some("= 100 б.".to_string()));
    p.decrement();
    p.decrement();
    assert_eq!(p.count, 0);
    assert_eq!(p.row_label(), None);
}

#[test]
fn points_stay_in_range() {
    let mut m = Product::from_def(ProductDef::manual("M", "", 60, 90));
    m.set_points(100);
    assert_eq!(m.points, 90);
    m.set_points(-3);
    assert_eq!(m.points, 60);
    m.set_points(75);
    assert_eq!(m.points, 75);
    m.points = 1000;
    m.clamp_points();
    assert_eq!(m.points, 90);
    let mut f = Product::from_def(ProductDef::fixed("F", "", 33));
    f.set_points(500);
    assert_eq!(f.points, 33);
}

#[test]
fn points_labels() {
    assert_eq!(points_label(0), "0 б.");
    assert_eq!(points_label(-5), "-5 б.");
    assert_eq!(points_label(1200), "1200 б.");
}

#[test]
fn copying_on_a_given_date() {
    let mut app = KpiApp::with_monthly_total(77);
    assert_eq!(app.monthly_total, 77);
    assert_eq!(app.daily_total(), 0);
    app.arm_reset = true;
    sell(&mut app, 5, 1);
    let report = app.start_copy_on("09.11");
    assert!(!app.arm_reset);
    assert_eq!(report, expected_report(&app, "09.11", "0/0", "0/0"));
    app.finish_copy_on(true, "09.11");
    assert_eq!(app.notice, "✓ Отчёт скопирован (09.11)");
    app.finish_copy_on(false, "");
    assert_eq!(app.notice, "Не удалось скопировать: нужен HTTPS (безопасное соединение).");
}

#[test]
fn every_change_of_the_month_is_written() {
    let mut app = KpiApp::new(Some("10"));
    let mut stored = app.monthly_total;
    sell(&mut app, 0, 1);
    if let Some(v) = app.save_day() {
        stored = v;
    }
    assert_eq!(stored, app.monthly_total);
    for _ in 0..2 {
        if let Some(v) = app.reset_month() {
            stored = v;
        }
        assert_eq!(stored, app.monthly_total);
    }
    assert_eq!(stored, 0);
}
