use ezlogin::ocr::{
    ctc_collapse, logits_layout, parse_dict_content, patch_dim_names, sanitize_captcha, score_index,
    LogitsLayout,
};

#[test]
fn dictionary_lines() {
    let d = parse_dict_content("a\r\nb\n\n c\r\r\nd");
    assert_eq!(d, vec!["", "a", "b", " c", "d"]);
    assert_eq!(parse_dict_content(""), vec![""]);
    assert_eq!(parse_dict_content("x\n"), vec!["", "x"]);
    assert_eq!(parse_dict_content("\r\n\r\n"), vec![""]);
}

#[test]
fn captcha_text_is_sanitized() {
    assert_eq!(sanitize_captcha("b5-BH9x"), "b5BH");
    assert_eq!(sanitize_captcha("a!"), "a");
    assert_eq!(sanitize_captcha("中2文b"), "2b");
    assert_eq!(sanitize_captcha(""), "");
}

#[test]
fn model_dimension_names_are_patched() {
    let mut bytes = b"xxDynamicDimension.yyyyyyyyyyyyyyyyyyyy".to_vec();
    let out = patch_dim_names(&bytes);
    assert_eq!(&out, b"xxDynamicDimension_yyyyyyyyyyyyyyyyyyyy");
    // a marker ending exactly at the end is not scanned
    bytes = b"abDynamicDimension.".to_vec();
    assert_eq!(patch_dim_names(&bytes), bytes);
    // one byte more and it is
    bytes = b"abDynamicDimension.z".to_vec();
    assert_eq!(patch_dim_names(&bytes), b"abDynamicDimension_z".to_vec());
    assert_eq!(patch_dim_names(b"short"), b"short".to_vec());
}

#[test]
fn output_layouts() {
    assert_eq!(logits_layout(&vec![1, 20, 37]).unwrap(), LogitsLayout { time_steps: 20, classes: 37, batch_axis: 0, transposed: false });
    assert_eq!(logits_layout(&vec![1, 40, 37]).unwrap(), LogitsLayout { time_steps: 37, classes: 40, batch_axis: 0, transposed: true });
    assert_eq!(logits_layout(&vec![40, 1, 37]).unwrap(), LogitsLayout { time_steps: 40, classes: 37, batch_axis: 1, transposed: false });
    assert_eq!(logits_layout(&vec![1, 2]).unwrap_err(), "unexpected output shape: [1, 2]");
    assert_eq!(logits_layout(&vec![]).unwrap_err(), "unexpected output shape: []");
    assert_eq!(logits_layout(&vec![2, 3, 4]).unwrap_err(), "unsupported output layout: [2, 3, 4]");
    assert_eq!(logits_layout(&vec![1, 0, 5]).unwrap_err(), "empty output logits");
}

#[test]
fn ctc_collapses_repeats_and_blanks() {
    let dict: Vec<String> = ["", "a", "b", "c"].iter().map(|s| s.to_string()).collect();
    let (text, steps) = ctc_collapse(&vec![0, 3, 3, 0, 3, 1, 2, 2, 9], &dict);
    assert_eq!(text, "ccab");
    assert_eq!(steps, vec![1, 4, 5, 6]);
    let (text, steps) = ctc_collapse(&vec![], &dict);
    assert_eq!(text, "");
    assert!(steps.is_empty());
}

#[test]
fn sanitized_text_is_short_and_alphanumeric() {
    for raw in ["", "ab", "a-b-c-d-e-f", "中文", "12345678"] {
        let s = sanitize_captcha(raw);
        assert!(s.chars().count() <= 4);
        assert!(s.chars().all(|c| c.is_ascii_alphanumeric()));
    }
}

#[test]
fn dictionary_has_blank_first_and_no_other_empty_entry() {
    let d = parse_dict_content("\n\na\r\n\r\n b\n");
    assert_eq!(d[0], "");
    assert!(d[1..].iter().all(|e| !e.is_empty()));
}

/// Best class per step of a row-major score list, read through the layout.
fn best_classes(shape: Vec<usize>, flat: &[i32]) -> Vec<usize> {
    let layout = logits_layout(&shape).unwrap();
    (0..layout.time_steps)
        .map(|t| {
            let mut best = 0;
            for c in 0..layout.classes {
                if flat[score_index(&shape, layout, t, c)] > flat[score_index(&shape, layout, t, best)] {
                    best = c;
                }
            }
            best
        })
        .collect()
}

#[test]
fn shorter_axis_is_time() {
    // A 2 x 3 matrix: steps 0 and 1, classes 0..3.
    let m = [[1, 9, 2], [7, 0, 3]];
    let rows: Vec<i32> = m.iter().flatten().copied().collect();
    let transposed: Vec<i32> = (0..3).flat_map(|c| (0..2).map(move |t| m[t][c])).collect();
    assert_eq!(best_classes(vec![1, 2, 3], &rows), vec![1, 0]);
    assert_eq!(best_classes(vec![2, 1, 3], &rows), vec![1, 0]);
    assert_eq!(best_classes(vec![1, 3, 2], &transposed), vec![1, 0]);
    let l = logits_layout(&vec![1, 3, 2]).unwrap();
    assert_eq!(score_index(&vec![1, 3, 2], l, 1, 2), 5);
    assert_eq!(score_index(&vec![1, 2, 3], logits_layout(&vec![1, 2, 3]).unwrap(), 1, 2), 5);
    assert_eq!(score_index(&vec![1, 3, 2], l, 0, 1), 2);
}
