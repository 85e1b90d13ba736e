use hover_dict::layout::{
    adjusted_popup_layout, layout_in_range, popup_size_for_result, PopupLayout, PopupSize, WorkArea,
};
use hover_dict::translator::TranslateResult;

const SCREEN: WorkArea = WorkArea { left: 0, top: 0, right: 1920, bottom: 1040 };

fn result(is_llm: bool, is_error: bool) -> Option<TranslateResult> {
    Some(TranslateResult {
        source_text: String::new(),
        phonetic: None,
        translation: String::new(),
        is_llm,
        is_error,
    })
}

#[test]
fn sizes() {
    assert_eq!(popup_size_for_result(&None), PopupSize { width: 320, height: 220 });
    assert_eq!(popup_size_for_result(&result(false, false)), PopupSize { width: 360, height: 240 });
    assert_eq!(popup_size_for_result(&result(true, false)), PopupSize { width: 460, height: 340 });
    assert_eq!(popup_size_for_result(&result(true, true)), PopupSize { width: 460, height: 300 });
    assert_eq!(popup_size_for_result(&result(false, true)), PopupSize { width: 460, height: 300 });
}

#[test]
fn extents_of_an_area() {
    let area = WorkArea { left: -10, top: 5, right: 20, bottom: 105 };
    assert_eq!(area.width(), 30);
    assert_eq!(area.height(), 100);
}

#[test]
fn popup_below_and_right_of_the_mouse() {
    assert_eq!(
        adjusted_popup_layout(100, 200, 360, 240, Some(SCREEN)),
        PopupLayout::Fitted { width: 360, height: 240, x: 114, y: 214 }
    );
}

#[test]
fn popup_flips_at_the_far_edges() {
    assert_eq!(
        adjusted_popup_layout(1900, 1000, 360, 240, Some(SCREEN)),
        PopupLayout::Fitted { width: 360, height: 240, x: 1526, y: 746 }
    );
}

#[test]
fn popup_is_moved_between_the_margins() {
    let area = WorkArea { left: 0, top: 0, right: 400, bottom: 300 };
    assert_eq!(
        adjusted_popup_layout(200, 150, 360, 240, Some(area)),
        PopupLayout::Fitted { width: 360, height: 240, x: 12, y: 12 }
    );
    assert_eq!(
        adjusted_popup_layout(-500, -500, 100, 100, Some(SCREEN)),
        PopupLayout::Fitted { width: 100, height: 100, x: 12, y: 12 }
    );
}

#[test]
fn popup_shrinks_but_not_below_its_least_size() {
    let area = WorkArea { left: 0, top: 0, right: 300, bottom: 200 };
    assert_eq!(
        adjusted_popup_layout(50, 50, 460, 340, Some(area)),
        PopupLayout::Fitted { width: 276, height: 176, x: 12, y: 12 }
    );
    let tiny = WorkArea { left: 100, top: 100, right: 150, bottom: 150 };
    assert_eq!(
        adjusted_popup_layout(120, 120, 460, 340, Some(tiny)),
        PopupLayout::Fitted { width: 240, height: 160, x: 112, y: 112 }
    );
}

#[test]
fn popup_without_a_known_screen() {
    assert_eq!(
        adjusted_popup_layout(-3, 7, 360, 240, None),
        PopupLayout::Free { x: 11, y: 21 }
    );
}

#[test]
fn popup_stays_within_the_margins_everywhere() {
    for x in -100..2100 {
        if let PopupLayout::Fitted { width, x, .. } =
            adjusted_popup_layout(x, 10, 460, 340, Some(SCREEN))
        {
            assert!(12 <= x && x + width <= 1908);
        } else {
            panic!("free");
        }
    }
}

#[test]
fn range_of_layouts() {
    assert!(layout_in_range(100, 200, 360, 240, Some(SCREEN)));
    assert!(!layout_in_range(i32::MAX, 0, 360, 240, Some(SCREEN)));
    assert!(!layout_in_range(0, i32::MAX - 13, 360, 240, None));
    assert!(layout_in_range(0, i32::MAX - 14, 360, 240, None));
    let wide = WorkArea { left: i32::MIN, top: 0, right: 1, bottom: 100 };
    assert!(!layout_in_range(0, 0, 360, 240, Some(wide)));
    assert!(!layout_in_range(i32::MIN, 0, 360, 240, Some(WorkArea { right: i32::MIN + 10, left: i32::MIN, ..SCREEN })));
}
