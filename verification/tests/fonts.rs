use hover_dict::fonts::SystemFont::{Segoe, SimHei, YaHei};
use hover_dict::fonts::{extend_family, LoadedFonts, SystemFont};

fn family(fonts: LoadedFonts) -> Vec<String> {
    let mut family = vec!["one".to_string(), "two".to_string()];
    extend_family(&mut family, fonts);
    family
}

#[test]
fn order_of_a_family() {
    let all = LoadedFonts { segoe: true, yahei: true, simhei: true };
    assert_eq!(family(all), ["segoeui", "one", "two", "msyh"]);
    let hei = LoadedFonts { segoe: false, yahei: false, simhei: true };
    assert_eq!(family(hei), ["one", "two", "simhei"]);
    assert_eq!(family(LoadedFonts::none()), ["one", "two"]);
    let west = LoadedFonts { segoe: true, yahei: false, simhei: false };
    assert_eq!(family(west), ["segoeui", "one", "two"]);
}

/// Tries the fonts in their order, where `readable` can be loaded.
fn load(readable: &[SystemFont]) -> (LoadedFonts, Vec<SystemFont>) {
    let mut fonts = LoadedFonts::none();
    let mut order = Vec::new();
    while let Some(font) = fonts.next_font(order.last().copied()) {
        fonts.note(font, readable.contains(&font));
        order.push(font);
    }
    (fonts, order)
}

#[test]
fn third_font_only_in_place_of_the_second() {
    assert_eq!(
        load(&[Segoe, YaHei, SimHei]),
        (LoadedFonts { segoe: true, yahei: true, simhei: false }, vec![Segoe, YaHei])
    );
    assert_eq!(
        load(&[Segoe, SimHei]),
        (LoadedFonts { segoe: true, yahei: false, simhei: true }, vec![Segoe, YaHei, SimHei])
    );
    assert_eq!(
        load(&[YaHei]),
        (LoadedFonts { segoe: false, yahei: true, simhei: false }, vec![Segoe, YaHei])
    );
    assert_eq!(load(&[]), (LoadedFonts::none(), vec![Segoe, YaHei, SimHei]));
}

#[test]
fn noting_a_font_twice() {
    let mut fonts = LoadedFonts::none();
    fonts.note(SystemFont::YaHei, true);
    fonts.note(SystemFont::Segoe, true);
    assert_eq!(fonts, LoadedFonts { segoe: true, yahei: true, simhei: false });
    assert_eq!(fonts.next_font(Some(SystemFont::YaHei)), None);
    fonts.note(SystemFont::YaHei, false);
    assert_eq!(fonts, LoadedFonts { segoe: true, yahei: false, simhei: false });
    assert_eq!(fonts.next_font(Some(SystemFont::YaHei)), Some(SystemFont::SimHei));
    assert_eq!(fonts.next_font(Some(SystemFont::SimHei)), None);
}

#[test]
fn names_and_files() {
    assert_eq!(SystemFont::Segoe.name(), "segoeui");
    assert_eq!(SystemFont::YaHei.name(), "msyh");
    assert_eq!(SystemFont::SimHei.name(), "simhei");
    assert_eq!(SystemFont::Segoe.path(), "C:\\Windows\\Fonts\\segoeui.ttf");
    assert_eq!(SystemFont::YaHei.path(), "C:\\Windows\\Fonts\\msyh.ttf");
    assert_eq!(SystemFont::SimHei.path(), "C:\\Windows\\Fonts\\simhei.ttf");
}
