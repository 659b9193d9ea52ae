//! The catalogue of products that earn KPI points.
use vstd::prelude::*;

verus! {

/// One product of the catalogue: its name, a note shown under it, the points
/// it earns, and, for products whose points are entered by hand, the range
/// the points may take.
#[derive(Clone, Copy)]
pub struct ProductDef {
    pub name: &'static str,
    pub note: &'static str,
    pub points: i32,
    pub manual: bool,
    pub min_points: i32,
    pub max_points: i32,
}

/// A product with a fixed number of points.
pub open spec fn fixed_def(name: &'static str, note: &'static str, points: i32) -> ProductDef {
    ProductDef { name, note, points, manual: false, min_points: points, max_points: points }
}

/// A product whose points are entered by hand within `min_points..=max_points`,
/// starting at `min_points`.
pub open spec fn manual_def(
    name: &'static str,
    note: &'static str,
    min_points: i32,
    max_points: i32,
) -> ProductDef {
    ProductDef { name, note, points: min_points, manual: true, min_points, max_points }
}

impl ProductDef {
    /// The range of points is not empty.
    pub open spec fn wf(self) -> bool {
        self.min_points <= self.max_points
    }

    pub fn fixed(name: &'static str, note: &'static str, points: i32) -> (d: Self)
        ensures
            d == fixed_def(name, note, points),
    {
        Self { name, note, points, manual: false, min_points: points, max_points: points }
    }

    pub fn manual(name: &'static str, note: &'static str, min_points: i32, max_points: i32) -> (d:
        Self)
        ensures
            d == manual_def(name, note, min_points, max_points),
    {
        Self { name, note, points: min_points, manual: true, min_points, max_points }
    }
}

/// The catalogue, in the order in which the products are shown and reported.
pub open spec fn catalog() -> Seq<ProductDef> {
    seq![
        fixed_def("СС от 250", "Потр. кредит со страховкой", 332),
        fixed_def("АВС", "Потр. кредит без страховки", 137),
        fixed_def("Изп/СЗП", "ИЗП / ЗП Лайт / СЗП", 273),
        fixed_def("Дк пос", "Продажа ДК / стикера", 50),
        manual_def("Кк", "Кредитная карта / Стикер", 60, 90),
        fixed_def("ПДС", "", 224),
        fixed_def("НС фонд шт", "Накопительный счет от 10 тыс.", 189),
        fixed_def("Пенсия шт", "Перевод пенсии в ВТБ", 150),
        fixed_def("Зп Лайт шт", "", 273),
        fixed_def("Вклад сумма(шт)", "", 137),
        fixed_def("КСП сумма(шт)", "", 98),
        fixed_def("Сом шт", "Страхование от мошенничества", 65),
        fixed_def("ВТБ+", "Подписка ВТБ Плюс", 45),
        fixed_def("Биометрия", "Снятие слепка биометрии", 50),
        fixed_def("СБ", "Семейный банк", 33),
        manual_def("Выдача ЗП ДК", "активация POS", 41, 62),
        fixed_def("Стратегия на пять", "", 222),
        fixed_def("Драйвер Гарантия", "", 287),
        fixed_def("Выдача ипотеки", "", 135),
        fixed_def("ОПИФ/ДУ", "", 194),
        fixed_def("ПУ Привилегия", "", 98),
        fixed_def("Автопополнение СБП", "", 137),
        fixed_def("Реферал ДК", "", 100),
        fixed_def("Автоплатеж ЖКУ/Связь", "", 43),
        fixed_def("ВТБ Мобайл", "", 32),
    ]
}

/// Every product of the catalogue has a non-empty range of points, and its
/// points lie in that range.
pub proof fn lemma_catalog_wf()
    ensures
        forall|i: int|
            0 <= i < catalog().len() ==> (#[trigger] catalog()[i]).wf() && catalog()[i].min_points
                <= catalog()[i].points <= catalog()[i].max_points,
{
}

/// The published table of products, one line each: name, note, whether the
/// points are entered by hand, starting points, and the range of points.
pub proof fn lemma_catalog_table()
    ensures
        catalog().len() == 25,
        catalog()[0].name == "СС от 250" && catalog()[0].note == "Потр. кредит со страховкой" && catalog()[0].manual == false
            && catalog()[0].points == 332 && catalog()[0].min_points == 332 && catalog()[0].max_points == 332,
        catalog()[1].name == "АВС" && catalog()[1].note == "Потр. кредит без страховки" && catalog()[1].manual == false
            && catalog()[1].points == 137 && catalog()[1].min_points == 137 && catalog()[1].max_points == 137,
        catalog()[2].name == "Изп/СЗП" && catalog()[2].note == "ИЗП / ЗП Лайт / СЗП" && catalog()[2].manual == false
            && catalog()[2].points == 273 && catalog()[2].min_points == 273 && catalog()[2].max_points == 273,
        catalog()[3].name == "Дк пос" && catalog()[3].note == "Продажа ДК / стикера" && catalog()[3].manual == false
            && catalog()[3].points == 50 && catalog()[3].min_points == 50 && catalog()[3].max_points == 50,
        catalog()[4].name == "Кк" && catalog()[4].note == "Кредитная карта / Стикер" && catalog()[4].manual == true
            && catalog()[4].points == 60 && catalog()[4].min_points == 60 && catalog()[4].max_points == 90,
        catalog()[5].name == "ПДС" && catalog()[5].note == "" && catalog()[5].manual == false
            && catalog()[5].points == 224 && catalog()[5].min_points == 224 && catalog()[5].max_points == 224,
        catalog()[6].name == "НС фонд шт" && catalog()[6].note == "Накопительный счет от 10 тыс." && catalog()[6].manual == false
            && catalog()[6].points == 189 && catalog()[6].min_points == 189 && catalog()[6].max_points == 189,
        catalog()[7].name == "Пенсия шт" && catalog()[7].note == "Перевод пенсии в ВТБ" && catalog()[7].manual == false
            && catalog()[7].points == 150 && catalog()[7].min_points == 150 && catalog()[7].max_points == 150,
        catalog()[8].name == "Зп Лайт шт" && catalog()[8].note == "" && catalog()[8].manual == false
            && catalog()[8].points == 273 && catalog()[8].min_points == 273 && catalog()[8].max_points == 273,
        catalog()[9].name == "Вклад сумма(шт)" && catalog()[9].note == "" && catalog()[9].manual == false
            && catalog()[9].points == 137 && catalog()[9].min_points == 137 && catalog()[9].max_points == 137,
        catalog()[10].name == "КСП сумма(шт)" && catalog()[10].note == "" && catalog()[10].manual == false
            && catalog()[10].points == 98 && catalog()[10].min_points == 98 && catalog()[10].max_points == 98,
        catalog()[11].name == "Сом шт" && catalog()[11].note == "Страхование от мошенничества" && catalog()[11].manual == false
            && catalog()[11].points == 65 && catalog()[11].min_points == 65 && catalog()[11].max_points == 65,
        catalog()[12].name == "ВТБ+" && catalog()[12].note == "Подписка ВТБ Плюс" && catalog()[12].manual == false
            && catalog()[12].points == 45 && catalog()[12].min_points == 45 && catalog()[12].max_points == 45,
        catalog()[13].name == "Биометрия" && catalog()[13].note == "Снятие слепка биометрии" && catalog()[13].manual == false
            && catalog()[13].points == 50 && catalog()[13].min_points == 50 && catalog()[13].max_points == 50,
        catalog()[14].name == "СБ" && catalog()[14].note == "Семейный банк" && catalog()[14].manual == false
            && catalog()[14].points == 33 && catalog()[14].min_points == 33 && catalog()[14].max_points == 33,
        catalog()[15].name == "Выдача ЗП ДК" && catalog()[15].note == "активация POS" && catalog()[15].manual == true
            && catalog()[15].points == 41 && catalog()[15].min_points == 41 && catalog()[15].max_points == 62,
        catalog()[16].name == "Стратегия на пять" && catalog()[16].note == "" && catalog()[16].manual == false
            && catalog()[16].points == 222 && catalog()[16].min_points == 222 && catalog()[16].max_points == 222,
        catalog()[17].name == "Драйвер Гарантия" && catalog()[17].note == "" && catalog()[17].manual == false
            && catalog()[17].points == 287 && catalog()[17].min_points == 287 && catalog()[17].max_points == 287,
        catalog()[18].name == "Выдача ипотеки" && catalog()[18].note == "" && catalog()[18].manual == false
            && catalog()[18].points == 135 && catalog()[18].min_points == 135 && catalog()[18].max_points == 135,
        catalog()[19].name == "ОПИФ/ДУ" && catalog()[19].note == "" && catalog()[19].manual == false
            && catalog()[19].points == 194 && catalog()[19].min_points == 194 && catalog()[19].max_points == 194,
        catalog()[20].name == "ПУ Привилегия" && catalog()[20].note == "" && catalog()[20].manual == false
            && catalog()[20].points == 98 && catalog()[20].min_points == 98 && catalog()[20].max_points == 98,
        catalog()[21].name == "Автопополнение СБП" && catalog()[21].note == "" && catalog()[21].manual == false
            && catalog()[21].points == 137 && catalog()[21].min_points == 137 && catalog()[21].max_points == 137,
        catalog()[22].name == "Реферал ДК" && catalog()[22].note == "" && catalog()[22].manual == false
            && catalog()[22].points == 100 && catalog()[22].min_points == 100 && catalog()[22].max_points == 100,
        catalog()[23].name == "Автоплатеж ЖКУ/Связь" && catalog()[23].note == "" && catalog()[23].manual == false
            && catalog()[23].points == 43 && catalog()[23].min_points == 43 && catalog()[23].max_points == 43,
        catalog()[24].name == "ВТБ Мобайл" && catalog()[24].note == "" && catalog()[24].manual == false
            && catalog()[24].points == 32 && catalog()[24].min_points == 32 && catalog()[24].max_points == 32,
{
}

/// The catalogue of all products.
pub fn all_products() -> (v: Vec<ProductDef>)
    ensures
        v@ == catalog(),
{
    let mut v: Vec<ProductDef> = Vec::new();
    v.push(ProductDef::fixed("СС от 250", "Потр. кредит со страховкой", 332));
    v.push(ProductDef::fixed("АВС", "Потр. кредит без страховки", 137));
    v.push(ProductDef::fixed("Изп/СЗП", "ИЗП / ЗП Лайт / СЗП", 273));
    v.push(ProductDef::fixed("Дк пос", "Продажа ДК / стикера", 50));
    v.push(ProductDef::manual("Кк", "Кредитная карта / Стикер", 60, 90));
    v.push(ProductDef::fixed("ПДС", "", 224));
    v.push(ProductDef::fixed("НС фонд шт", "Накопительный счет от 10 тыс.", 189));
    v.push(ProductDef::fixed("Пенсия шт", "Перевод пенсии в ВТБ", 150));
    v.push(ProductDef::fixed("Зп Лайт шт", "", 273));
    v.push(ProductDef::fixed("Вклад сумма(шт)", "", 137));
    v.push(ProductDef::fixed("КСП сумма(шт)", "", 98));
    v.push(ProductDef::fixed("Сом шт", "Страхование от мошенничества", 65));
    v.push(ProductDef::fixed("ВТБ+", "Подписка ВТБ Плюс", 45));
    v.push(ProductDef::fixed("Биометрия", "Снятие слепка биометрии", 50));
    v.push(ProductDef::fixed("СБ", "Семейный банк", 33));
    v.push(ProductDef::manual("Выдача ЗП ДК", "активация POS", 41, 62));
    v.push(ProductDef::fixed("Стратегия на пять", "", 222));
    v.push(ProductDef::fixed("Драйвер Гарантия", "", 287));
    v.push(ProductDef::fixed("Выдача ипотеки", "", 135));
    v.push(ProductDef::fixed("ОПИФ/ДУ", "", 194));
    v.push(ProductDef::fixed("ПУ Привилегия", "", 98));
    v.push(ProductDef::fixed("Автопополнение СБП", "", 137));
    v.push(ProductDef::fixed("Реферал ДК", "", 100));
    v.push(ProductDef::fixed("Автоплатеж ЖКУ/Связь", "", 43));
    v.push(ProductDef::fixed("ВТБ Мобайл", "", 32));
    assert(v@ =~= catalog());
    v
}

} // verus!
