//! The state of the KPI tally and the decisions its screen makes: the day's
//! total, saving the day into the monthly total, resetting the month, the
//! report for the chat, and the product search.
use vstd::prelude::*;

use crate::catalog::{all_products, catalog, lemma_catalog_wf};
use crate::clock::{date_text, today_dd_mm};
use crate::product::{
    clamped, decremented, incremented, lemma_row_points_bounds, row_points, with_points, Product,
};
use crate::storage::{load_monthly, total_from_text};
use crate::text::{
    all_white_space, contains_spec, decimal_text, int_text, lemma_int_text_of_count,
    lemma_trim_ignores_outer_white_space, lowercase_text, text_contains, to_lowercase, trim_spec,
    trim_text,
};

verus! {

pub struct KpiApp {
    pub products: Vec<Product>,
    pub clients_served: String,
    pub npl_connected: String,
    pub search: String,
    pub monthly_total: i64,
    pub notice: String,
    pub arm_reset: bool,
}

/// The state of the tally as plain values.
pub struct AppView {
    pub products: Seq<Product>,
    pub clients_served: Seq<char>,
    pub npl_connected: Seq<char>,
    pub search: Seq<char>,
    pub monthly_total: int,
    pub notice: Seq<char>,
    pub arm_reset: bool,
}

impl View for KpiApp {
    type V = AppView;

    open spec fn view(&self) -> AppView {
        AppView {
            products: self.products@,
            clients_served: self.clients_served@,
            npl_connected: self.npl_connected@,
            search: self.search@,
            monthly_total: self.monthly_total as int,
            notice: self.notice@,
            arm_reset: self.arm_reset,
        }
    }
}

// ---- the model -------------------------------------------------------------

/// The day's total: the sum, over all rows, of count times points.
pub open spec fn day_total(ps: Seq<Product>) -> int
    decreases ps.len(),
{
    if ps.len() == 0 {
        0
    } else {
        day_total(ps.drop_last()) + row_points(ps.last())
    }
}

/// Whether a number fits in an `i64`.
pub open spec fn fits_i64(v: int) -> bool {
    i64::MIN <= v <= i64::MAX
}

/// The rows with all counts set back to zero.
pub open spec fn zero_counts(ps: Seq<Product>) -> Seq<Product> {
    Seq::new(ps.len(), |i: int| Product { count: 0, ..ps[i] })
}

/// The rows of a fresh tally: the catalogue, nothing sold, starting points.
pub open spec fn fresh_rows(defs: Seq<crate::catalog::ProductDef>) -> Seq<Product> {
    Seq::new(defs.len(), |i: int| Product { def: defs[i], count: 0, points: defs[i].points })
}

/// A fresh tally with the given monthly total.
pub open spec fn fresh_view(monthly_total: int) -> AppView {
    AppView {
        products: fresh_rows(catalog()),
        clients_served: "0/0"@,
        npl_connected: "0/0"@,
        search: Seq::empty(),
        monthly_total,
        notice: Seq::empty(),
        arm_reset: false,
    }
}

pub open spec fn skip_notice() -> Seq<char> {
    "Нет набранных баллов за день — сохранение пропущено."@
}

pub open spec fn saved_notice(points: int) -> Seq<char> {
    "День сохранён (+"@ + int_text(points) + " б.). Дневные счётчики обнулены."@
}

pub open spec fn reset_done_notice() -> Seq<char> {
    "Общий итог сброшен."@
}

pub open spec fn confirm_reset_notice() -> Seq<char> {
    "Нажмите «Подтвердить сброс?» ещё раз"@
}

/// The notice after an attempt to copy the report made on `date`.
pub open spec fn copy_notice_text(copied: bool, date: Seq<char>) -> Seq<char> {
    if copied {
        "✓ Отчёт скопирован ("@ + date + ")"@
    } else {
        "Не удалось скопировать: нужен HTTPS (безопасное соединение)."@
    }
}

/// Saving the day: a day without points is skipped with a notice; otherwise
/// its points are added to the monthly total, the counts go back to zero, a
/// pending reset is disarmed, and the notice says how many points were added.
pub open spec fn save_day_step(v: AppView) -> AppView {
    let t = day_total(v.products);
    if t == 0 {
        AppView { notice: skip_notice(), ..v }
    } else {
        AppView {
            products: zero_counts(v.products),
            monthly_total: v.monthly_total + t,
            arm_reset: false,
            notice: saved_notice(t),
            ..v
        }
    }
}

/// Pressing the reset button: the first press arms the reset and asks for
/// confirmation; the second sets the monthly total to zero and disarms it.
pub open spec fn reset_step(v: AppView) -> AppView {
    if v.arm_reset {
        AppView { monthly_total: 0, arm_reset: false, notice: reset_done_notice(), ..v }
    } else {
        AppView { arm_reset: true, notice: confirm_reset_notice(), ..v }
    }
}

/// What a save writes to storage: the new monthly total, or nothing where
/// the day was skipped.
pub open spec fn save_day_write(v: AppView) -> Option<int> {
    if day_total(v.products) == 0 {
        None
    } else {
        Some(save_day_step(v).monthly_total)
    }
}

/// What a press of the reset button writes to storage: zero on the
/// confirming press, nothing on the first.
pub open spec fn reset_write(v: AppView) -> Option<int> {
    if v.arm_reset {
        Some(0)
    } else {
        None
    }
}

/// The stored monthly total after `write` was written over `stored`.
pub open spec fn stored_after(stored: int, write: Option<int>) -> int {
    match write {
        Some(x) => x,
        None => stored,
    }
}

/// Starting to copy the report disarms a pending reset.
pub open spec fn copy_start_step(v: AppView) -> AppView {
    AppView { arm_reset: false, ..v }
}

/// Finishing to copy the report sets the notice.
pub open spec fn copy_finish_step(v: AppView, copied: bool, date: Seq<char>) -> AppView {
    AppView { notice: copy_notice_text(copied, date), ..v }
}

/// A change made through one row of the tally.
pub open spec fn row_step(v: AppView, i: int, p: Product) -> AppView {
    AppView { products: v.products.update(i, p), ..v }
}

/// The rows are the catalogue's products, in its order, each with its points
/// in the product's range.
pub open spec fn rows_on_catalog(ps: Seq<Product>) -> bool {
    &&& ps.len() == catalog().len()
    &&& forall|i: int|
        0 <= i < ps.len() ==> (#[trigger] ps[i]).def == catalog()[i] && ps[i].in_range()
}

/// The report lines of the products: "{name} - {count}", one per row.
pub open spec fn product_lines(ps: Seq<Product>) -> Seq<char>
    decreases ps.len(),
{
    if ps.len() == 0 {
        Seq::empty()
    } else {
        product_lines(ps.drop_last()) + ps.last().def.name@ + " - "@ + int_text(
            ps.last().count as int,
        ) + "\n"@
    }
}

/// The report for the chat, made on `date`.
pub open spec fn report_spec(v: AppView, date: Seq<char>) -> Seq<char> {
    "Итог дня: "@ + date + "\n"@ + "\n"@ + "Клиентов обслужено - "@ + trim_spec(v.clients_served)
        + "\n"@ + "Подключено НПЛ - "@ + trim_spec(v.npl_connected) + "\n"@ + "\n"@
        + product_lines(v.products) + "\n"@ + "Прк - 0/"@ + int_text(day_total(v.products))
        + "\n"@
}

/// Whether a lower-cased search text selects a lower-cased product text: an
/// empty search selects everything, else the search must occur in it.
pub open spec fn query_selects(hay_lower: Seq<char>, query_lower: Seq<char>) -> bool {
    query_lower.len() == 0 || contains_spec(hay_lower, query_lower)
}

/// Whether the search box `search` shows the product `def`: its name and
/// note, joined by a space and lower-cased, against the trimmed, lower-cased
/// search.
pub open spec fn product_visible(def: crate::catalog::ProductDef, search: Seq<char>) -> bool {
    query_selects(
        lowercase_text(def.name@ + " "@ + def.note@),
        lowercase_text(trim_spec(search)),
    )
}

// ---- lemmas ----------------------------------------------------------------

/// Rows without sales add nothing to the day.
pub proof fn lemma_zero_counts_total(ps: Seq<Product>)
    ensures
        day_total(zero_counts(ps)) == 0,
    decreases ps.len(),
{
    if ps.len() > 0 {
        let z = zero_counts(ps);
        assert(z.drop_last() =~= zero_counts(ps.drop_last()));
        lemma_zero_counts_total(ps.drop_last());
        assert(z.last().count == 0);
        assert(row_points(z.last()) == 0) by (nonlinear_arith)
            requires
                z.last().count == 0,
        ;
    }
}

// ---- the laws --------------------------------------------------------------

/// After a save, the day's total is zero.
pub proof fn lemma_save_clears_day(v: AppView)
    ensures
        day_total(save_day_step(v).products) == 0,
{
    lemma_zero_counts_total(v.products);
}

/// Saving moves points and creates none: the monthly total plus the day's
/// total is the same before and after a save.
pub proof fn lemma_save_conserves_points(v: AppView)
    ensures
        save_day_step(v).monthly_total + day_total(save_day_step(v).products) == v.monthly_total
            + day_total(v.products),
{
    lemma_zero_counts_total(v.products);
}

/// A second save right after a save has nothing to add: it is skipped, and
/// only the notice changes.
pub proof fn lemma_second_save_skips(v: AppView)
    ensures
        save_day_step(save_day_step(v)) == (AppView { notice: skip_notice(), ..save_day_step(v) }),
{
    lemma_zero_counts_total(v.products);
}

/// The monthly total is only reset on confirmation: a first press keeps it,
/// a second press sets it to zero and disarms the reset.
pub proof fn lemma_reset_needs_confirmation(v: AppView)
    requires
        !v.arm_reset,
    ensures
        reset_step(v).monthly_total == v.monthly_total,
        reset_step(v).arm_reset,
        reset_step(reset_step(v)).monthly_total == 0,
        !reset_step(reset_step(v)).arm_reset,
{
}

/// A save that adds points disarms a pending reset, so the next press of
/// the reset button only asks for confirmation again.
pub proof fn lemma_save_disarms_reset(v: AppView)
    requires
        day_total(v.products) != 0,
    ensures
        reset_step(save_day_step(v)).monthly_total == save_day_step(v).monthly_total,
{
}

/// Every step of the screen keeps the rows on the catalogue with their points
/// in range: saving the day, pressing the reset button, copying the report,
/// and, on any row, a sale added (below the largest count), a sale taken
/// back, clamping the points, and setting them by hand. A fresh tally starts
/// so.
pub proof fn lemma_steps_keep_rows(v: AppView, i: int, copied: bool, date: Seq<char>, value: i32)
    requires
        rows_on_catalog(v.products),
        0 <= i < v.products.len(),
    ensures
        rows_on_catalog(fresh_view(v.monthly_total).products),
        rows_on_catalog(save_day_step(v).products),
        rows_on_catalog(reset_step(v).products),
        rows_on_catalog(copy_start_step(v).products),
        rows_on_catalog(copy_finish_step(v, copied, date).products),
        v.products[i].count < u32::MAX ==> rows_on_catalog(
            row_step(v, i, incremented(v.products[i])).products,
        ),
        rows_on_catalog(row_step(v, i, decremented(v.products[i])).products),
        rows_on_catalog(row_step(v, i, clamped(v.products[i])).products),
        rows_on_catalog(row_step(v, i, with_points(v.products[i], value)).products),
{
    lemma_catalog_wf();
    assert(v.products[i].def.wf());
}

/// Every change of the monthly total is written to storage: where the stored
/// total was the monthly total before a step, what the step writes leaves it
/// equal to the monthly total after the step. Copying the report and the
/// steps on a row do not change the monthly total.
pub proof fn lemma_writes_keep_store_current(
    v: AppView,
    stored: int,
    i: int,
    p: Product,
    copied: bool,
    date: Seq<char>,
)
    requires
        stored == v.monthly_total,
    ensures
        stored_after(stored, save_day_write(v)) == save_day_step(v).monthly_total,
        stored_after(stored, reset_write(v)) == reset_step(v).monthly_total,
        copy_start_step(v).monthly_total == stored,
        copy_finish_step(v, copied, date).monthly_total == stored,
        row_step(v, i, p).monthly_total == stored,
{
}

/// Changing one row changes the day's total by exactly the change of that
/// row's points; every row counts.
pub proof fn lemma_day_total_update(ps: Seq<Product>, i: int, p: Product)
    requires
        0 <= i < ps.len(),
    ensures
        day_total(ps.update(i, p)) == day_total(ps) - row_points(ps[i]) + row_points(p),
    decreases ps.len(),
{
    let q = ps.update(i, p);
    if i == ps.len() - 1 {
        assert(q.drop_last() =~= ps.drop_last());
    } else {
        assert(q.drop_last() =~= ps.drop_last().update(i, p));
        lemma_day_total_update(ps.drop_last(), i, p);
    }
}

/// One more sale of a product adds that product's points to the day; one
/// sale taken back (where there was one) takes them off again.
pub proof fn lemma_sale_changes_day_by_points(ps: Seq<Product>, i: int)
    requires
        0 <= i < ps.len(),
    ensures
        ps[i].count < u32::MAX ==> day_total(ps.update(i, incremented(ps[i]))) == day_total(ps)
            + ps[i].points,
        ps[i].count > 0 ==> day_total(ps.update(i, decremented(ps[i]))) == day_total(ps)
            - ps[i].points,
{
    let p = ps[i];
    if p.count < u32::MAX {
        lemma_day_total_update(ps, i, incremented(p));
        assert(row_points(incremented(p)) == row_points(p) + p.points) by (nonlinear_arith)
            requires
                incremented(p).count == p.count + 1,
                incremented(p).points == p.points,
        ;
    }
    if p.count > 0 {
        lemma_day_total_update(ps, i, decremented(p));
        assert(row_points(decremented(p)) == row_points(p) - p.points) by (nonlinear_arith)
            requires
                decremented(p).count == p.count - 1,
                decremented(p).points == p.points,
        ;
    }
}

/// Where only one row has sales, the day's total is that row's count times
/// its points, whichever row it is.
pub proof fn lemma_single_row_day(ps: Seq<Product>, i: int)
    requires
        0 <= i < ps.len(),
    ensures
        day_total(zero_counts(ps).update(i, ps[i])) == ps[i].count * ps[i].points,
{
    lemma_zero_counts_total(ps);
    lemma_day_total_update(zero_counts(ps), i, ps[i]);
    let z = zero_counts(ps)[i];
    assert(row_points(z) == 0) by (nonlinear_arith)
        requires
            z.count == 0,
    ;
}

/// The search box shows the same products whatever white space stands
/// before or after the search text: only the trimmed text counts.
pub proof fn lemma_search_ignores_outer_white_space(
    def: crate::catalog::ProductDef,
    s: Seq<char>,
    w: Seq<char>,
)
    requires
        all_white_space(w),
    ensures
        product_visible(def, s + w) == product_visible(def, s),
        product_visible(def, w + s) == product_visible(def, s),
{
    lemma_trim_ignores_outer_white_space(s, w);
}

/// Each row adds one line to the report: its name, " - ", and its count
/// written in full, as decimal digits without a leading zero that denote the
/// count, then a line break.
pub proof fn lemma_report_line(ps: Seq<Product>, p: Product)
    ensures
        product_lines(ps.push(p)) == product_lines(ps) + p.def.name@ + " - "@ + int_text(
            p.count as int,
        ) + "\n"@,
        int_text(p.count as int).len() >= 1,
        crate::text::all_digits(int_text(p.count as int)),
        crate::text::digits_value(int_text(p.count as int)) == p.count,
        int_text(p.count as int).len() > 1 ==> int_text(p.count as int)[0] != '0',
{
    assert(ps.push(p).drop_last() =~= ps);
    lemma_int_text_of_count(p.count as nat);
}

/// The report opens with its date, closes with the day's total, and does
/// not change when white space is added around the two typed-in fields.
pub proof fn lemma_report_layout(v: AppView, date: Seq<char>, w: Seq<char>)
    requires
        all_white_space(w),
    ensures
        report_spec(v, date).take(("Итог дня: "@ + date + "\n"@).len() as int) == "Итог дня: "@
            + date + "\n"@,
        report_spec(v, date).skip(
            report_spec(v, date).len() - ("Прк - 0/"@ + int_text(day_total(v.products))
                + "\n"@).len(),
        ) == "Прк - 0/"@ + int_text(day_total(v.products)) + "\n"@,
        report_spec(AppView { clients_served: w + v.clients_served + w, ..v }, date)
            == report_spec(v, date),
        report_spec(AppView { npl_connected: w + v.npl_connected + w, ..v }, date)
            == report_spec(v, date),
{
    let head = "Итог дня: "@ + date + "\n"@;
    let tail = "Прк - 0/"@ + int_text(day_total(v.products)) + "\n"@;
    let r = report_spec(v, date);
    let rest = "\n"@ + "Клиентов обслужено - "@ + trim_spec(v.clients_served) + "\n"@
        + "Подключено НПЛ - "@ + trim_spec(v.npl_connected) + "\n"@ + "\n"@ + product_lines(
        v.products,
    ) + "\n"@;
    assert(r =~= head + rest + tail);
    assert(r.take(head.len() as int) =~= head);
    assert(r.skip(r.len() - tail.len()) =~= tail);
    lemma_trim_ignores_outer_white_space(w + v.clients_served, w);
    lemma_trim_ignores_outer_white_space(v.clients_served, w);
    lemma_trim_ignores_outer_white_space(w + v.npl_connected, w);
    lemma_trim_ignores_outer_white_space(v.npl_connected, w);
}

/// A fresh tally has nothing for the day.
pub proof fn lemma_fresh_day_is_empty(monthly_total: int)
    ensures
        day_total(fresh_view(monthly_total).products) == 0,
{
    let ps = fresh_rows(catalog());
    assert(ps =~= zero_counts(ps));
    lemma_zero_counts_total(ps);
}

// ---- the executable part ---------------------------------------------------

impl KpiApp {
    /// Every product has a non-empty range of points.
    pub open spec fn wf(&self) -> bool {
        forall|i: int| 0 <= i < self.products@.len() ==> (#[trigger] self.products@[i]).def.wf()
    }

    /// A fresh tally over the catalogue, with the monthly total read back from
    /// what was stored (`None` where nothing could be read).
    pub fn new(stored_total: Option<&str>) -> (app: Self)
        ensures
            stored_total is None ==> app@ == fresh_view(0),
            stored_total matches Some(s) ==> app@ == fresh_view(total_from_text(s@) as int),
            app.wf(),
    {
        Self::with_monthly_total(load_monthly(stored_total))
    }

    /// A fresh tally over the catalogue with the given monthly total.
    pub fn with_monthly_total(monthly_total: i64) -> (app: Self)
        ensures
            app@ == fresh_view(monthly_total as int),
            app.wf(),
    {
        let defs = all_products();
        let mut products: Vec<Product> = Vec::new();
        let mut i: usize = 0;
        while i < defs.len()
            invariant
                defs@ == catalog(),
                i <= defs@.len(),
                products@ =~= fresh_rows(catalog()).take(i as int),
            decreases defs@.len() - i,
        {
            products.push(Product::from_def(defs[i]));
            i = i + 1;
        }
        assert(fresh_rows(catalog()).take(defs@.len() as int) =~= fresh_rows(catalog()));
        let app = KpiApp {
            products,
            clients_served: String::from_str("0/0"),
            npl_connected: String::from_str("0/0"),
            search: String::new(),
            monthly_total,
            notice: String::new(),
            arm_reset: false,
        };
        proof {
            lemma_catalog_wf();
            assert forall|i: int| 0 <= i < app.products@.len() implies (
            #[trigger] app.products@[i]).def.wf() by {
                assert(app.products@[i].def == catalog()[i]);
            }
        }
        app
    }

    /// The day's total, computed wide enough that no step overflows.
    fn total_wide(&self) -> (t: i128)
        ensures
            t == day_total(self.products@),
    {
        let n = self.products.len();
        let mut acc: i128 = 0;
        let mut i: usize = 0;
        while i < n
            invariant
                n == self.products@.len(),
                i <= n,
                acc == day_total(self.products@.take(i as int)),
                -(i * 0x8000_0000_0000_0000) <= acc <= i * 0x8000_0000_0000_0000,
            decreases n - i,
        {
            let p = self.products[i];
            let r = p.row_total();
            proof {
                lemma_row_points_bounds(p);
                assert(self.products@.take(i + 1).drop_last() =~= self.products@.take(i as int));
                assert(self.products@.take(i + 1).last() == p);
            }
            acc = acc + r as i128;
            i = i + 1;
        }
        assert(self.products@.take(n as int) =~= self.products@);
        acc
    }

    /// The day's total, or `None` where it does not fit in an `i64`.
    pub fn checked_daily_total(&self) -> (r: Option<i64>)
        ensures
            fits_i64(day_total(self.products@)) ==> r == Some(day_total(self.products@) as i64),
            !fits_i64(day_total(self.products@)) ==> r is None,
    {
        let t = self.total_wide();
        if t < i64::MIN as i128 || t > i64::MAX as i128 {
            None
        } else {
            Some(t as i64)
        }
    }

    /// The day's total: the sum over all rows of count times points.
    pub fn daily_total(&self) -> (r: i64)
        requires
            fits_i64(day_total(self.products@)),
        ensures
            r == day_total(self.products@),
    {
        let t = self.total_wide();
        t as i64
    }

    /// Saves the day into the monthly total (see `save_day_step`). Returns the
    /// new monthly total, which is to be stored, or `None` where the day was
    /// skipped.
    pub fn save_day(&mut self) -> (stored: Option<i64>)
        requires
            fits_i64(day_total(old(self).products@)),
            fits_i64(old(self).monthly_total + day_total(old(self).products@)),
        ensures
            final(self)@ == save_day_step(old(self)@),
            day_total(old(self).products@) == 0 ==> stored is None,
            day_total(old(self).products@) != 0 ==> stored == Some(final(self).monthly_total),
            (stored is Some) == (save_day_write(old(self)@) is Some),
            stored matches Some(x) ==> save_day_write(old(self)@) == Some(x as int),
            day_total(final(self).products@) == 0,
    {
        let points = self.daily_total();
        if points == 0 {
            self.notice = String::from_str("Нет набранных баллов за день — сохранение пропущено.");
            return None;
        }
        self.monthly_total = self.monthly_total + points;
        self.products = zeroed(&self.products);
        self.arm_reset = false;
        let mut notice = String::from_str("День сохранён (+");
        let number = decimal_text(points);
        notice.append(number.as_str());
        notice.append(" б.). Дневные счётчики обнулены.");
        assert(notice@ =~= saved_notice(points as int));
        self.notice = notice;
        proof {
            lemma_zero_counts_total(old(self).products@);
        }
        Some(self.monthly_total)
    }

    /// Presses the reset button of the month (see `reset_step`). Returns the
    /// monthly total to be stored, zero, when the reset was confirmed.
    pub fn reset_month(&mut self) -> (stored: Option<i64>)
        ensures
            final(self)@ == reset_step(old(self)@),
            old(self).arm_reset ==> stored == Some(0i64),
            !old(self).arm_reset ==> stored is None,
            (stored is Some) == (reset_write(old(self)@) is Some),
            stored matches Some(x) ==> reset_write(old(self)@) == Some(x as int),
    {
        if self.arm_reset {
            self.monthly_total = 0;
            self.arm_reset = false;
            self.notice = String::from_str("Общий итог сброшен.");
            Some(0)
        } else {
            self.arm_reset = true;
            self.notice = String::from_str("Нажмите «Подтвердить сброс?» ещё раз");
            None
        }
    }

    /// The label of the reset button: it asks for confirmation once armed.
    pub fn reset_label(&self) -> (label: &'static str)
        ensures
            self.arm_reset ==> label@ == "Подтвердить сброс?"@,
            !self.arm_reset ==> label@ == "Сброс месяца"@,
    {
        if self.arm_reset {
            "Подтвердить сброс?"
        } else {
            "Сброс месяца"
        }
    }

    /// The report for the chat, made on the given date.
    pub fn report_text(&self, date: &str) -> (res: String)
        requires
            fits_i64(day_total(self.products@)),
        ensures
            res@ == report_spec(self@, date@),
    {
        let mut out = String::new();
        out.append("Итог дня: ");
        out.append(date);
        out.append("\n");
        out.append("\n");
        out.append("Клиентов обслужено - ");
        out.append(trim_text(self.clients_served.as_str()));
        out.append("\n");
        out.append("Подключено НПЛ - ");
        out.append(trim_text(self.npl_connected.as_str()));
        out.append("\n");
        out.append("\n");
        let ghost head = out@;
        let n = self.products.len();
        let mut i: usize = 0;
        while i < n
            invariant
                n == self.products@.len(),
                i <= n,
                out@ == head + product_lines(self.products@.take(i as int)),
            decreases n - i,
        {
            let p = self.products[i];
            out.append(p.def.name);
            out.append(" - ");
            let count = decimal_text(p.count as i64);
            out.append(count.as_str());
            out.append("\n");
            proof {
                let t = self.products@.take(i + 1);
                assert(t.drop_last() =~= self.products@.take(i as int));
                assert(t.last() == p);
                assert(out@ =~= head + product_lines(t));
            }
            i = i + 1;
        }
        assert(self.products@.take(n as int) =~= self.products@);
        out.append("\n");
        out.append("Прк - 0/");
        let total = decimal_text(self.daily_total());
        out.append(total.as_str());
        out.append("\n");
        assert(out@ =~= report_spec(self@, date@));
        out
    }

    /// The report for the chat, dated today by the local clock.
    pub fn build_report(&self) -> (res: String)
        requires
            fits_i64(day_total(self.products@)),
        ensures
            exists|day: u32, month: u32|
                1 <= day <= 31 && 1 <= month <= 12 && res@ == report_spec(
                    self@,
                    #[trigger] date_text(day as nat, month as nat),
                ),
    {
        let date = today_dd_mm();
        self.report_text(date.as_str())
    }

    /// Starts copying the report: disarms a pending reset and returns the
    /// report to copy.
    pub fn start_copy(&mut self) -> (report: String)
        requires
            fits_i64(day_total(old(self).products@)),
        ensures
            final(self)@ == copy_start_step(old(self)@),
            exists|day: u32, month: u32|
                1 <= day <= 31 && 1 <= month <= 12 && report@ == report_spec(
                    final(self)@,
                    #[trigger] date_text(day as nat, month as nat),
                ),
    {
        let date = today_dd_mm();
        self.start_copy_on(date.as_str())
    }

    /// Starts copying the report made on `date`: disarms a pending reset and
    /// returns the report to copy.
    pub fn start_copy_on(&mut self, date: &str) -> (report: String)
        requires
            fits_i64(day_total(old(self).products@)),
        ensures
            final(self)@ == copy_start_step(old(self)@),
            report@ == report_spec(final(self)@, date@),
    {
        self.arm_reset = false;
        self.report_text(date)
    }

    /// Records how copying the report went: a notice dated today where it was
    /// copied, else a notice that it could not be.
    pub fn finish_copy(&mut self, copied: bool)
        ensures
            copied ==> exists|day: u32, month: u32|
                1 <= day <= 31 && 1 <= month <= 12 && final(self)@ == copy_finish_step(
                    old(self)@,
                    true,
                    #[trigger] date_text(day as nat, month as nat),
                ),
            !copied ==> final(self)@ == copy_finish_step(old(self)@, false, Seq::empty()),
    {
        if copied {
            let date = today_dd_mm();
            self.finish_copy_on(true, date.as_str());
        } else {
            self.finish_copy_on(false, "");
        }
    }

    /// Records how copying the report went, with `date` as the date of a
    /// successful copy.
    pub fn finish_copy_on(&mut self, copied: bool, date: &str)
        ensures
            final(self)@ == copy_finish_step(old(self)@, copied, date@),
    {
        self.notice = copy_notice(copied, date);
    }

    /// The indices of the products that the search box shows, in order.
    pub fn visible_products(&self) -> (shown: Vec<usize>)
        ensures
            forall|k: int| 0 <= k < shown@.len() ==> shown@[k] < self.products@.len(),
            forall|k: int, l: int| 0 <= k < l < shown@.len() ==> shown@[k] < shown@[l],
            forall|i: int|
                0 <= i < self.products@.len() ==> (shown@.contains(i as usize) <==> product_visible(
                    #[trigger] self.products@[i].def,
                    self.search@,
                )),
    {
        let query = to_lowercase(trim_text(self.search.as_str()));
        let n = self.products.len();
        let mut shown: Vec<usize> = Vec::new();
        let mut i: usize = 0;
        while i < n
            invariant
                n == self.products@.len(),
                i <= n,
                query@ == lowercase_text(trim_spec(self.search@)),
                forall|k: int| 0 <= k < shown@.len() ==> shown@[k] < i,
                forall|k: int, l: int| 0 <= k < l < shown@.len() ==> shown@[k] < shown@[l],
                forall|j: int|
                    0 <= j < i ==> (shown@.contains(j as usize) <==> product_visible(
                        #[trigger] self.products@[j].def,
                        self.search@,
                    )),
            decreases n - i,
        {
            let def = self.products[i].def;
            let mut hay = String::from_str(def.name);
            hay.append(" ");
            hay.append(def.note);
            let hay_lower = to_lowercase(hay.as_str());
            let ghost old_shown = shown@;
            if matches_query(hay_lower.as_str(), query.as_str()) {
                shown.push(i);
                assert forall|j: int| 0 <= j < i implies (#[trigger] shown@.contains(j as usize)
                    <==> old_shown.contains(j as usize)) by {
                    if old_shown.contains(j as usize) {
                        let k = choose|k: int| 0 <= k < old_shown.len() && old_shown[k] == j as usize;
                        assert(shown@[k] == j as usize);
                    }
                    if shown@.contains(j as usize) {
                        let k = choose|k: int| 0 <= k < shown@.len() && shown@[k] == j as usize;
                        assert(k < old_shown.len());
                    }
                }
                assert(shown@[shown@.len() - 1] == i);
            } else {
                assert(!shown@.contains(i));
            }
            i = i + 1;
        }
        shown
    }
}

/// The rows with all counts set back to zero.
fn zeroed(ps: &Vec<Product>) -> (res: Vec<Product>)
    ensures
        res@ == zero_counts(ps@),
{
    let n = ps.len();
    let mut res: Vec<Product> = Vec::new();
    let mut i: usize = 0;
    while i < n
        invariant
            n == ps@.len(),
            i <= n,
            res@ =~= zero_counts(ps@).take(i as int),
        decreases n - i,
    {
        let mut p = ps[i];
        p.count = 0;
        res.push(p);
        i = i + 1;
    }
    assert(zero_counts(ps@).take(n as int) =~= zero_counts(ps@));
    res
}

/// The notice after an attempt to copy the report made on `date`.
pub fn copy_notice(copied: bool, date: &str) -> (res: String)
    ensures
        res@ == copy_notice_text(copied, date@),
{
    if copied {
        let mut s = String::from_str("✓ Отчёт скопирован (");
        s.append(date);
        s.append(")");
        s
    } else {
        String::from_str("Не удалось скопировать: нужен HTTPS (безопасное соединение).")
    }
}

/// Whether a lower-cased search text selects a lower-cased product text.
pub fn matches_query(hay_lower: &str, query_lower: &str) -> (res: bool)
    ensures
        res == query_selects(hay_lower@, query_lower@),
{
    if query_lower.unicode_len() == 0 {
        true
    } else {
        text_contains(hay_lower, query_lower)
    }
}

} // verus!
