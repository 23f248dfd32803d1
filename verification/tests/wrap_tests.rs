use ccometixline::config::{AnsiColor, SegmentId};
use ccometixline::engine::compose::RenderUnit;
use ccometixline::engine::style::EffectiveStyle;
use ccometixline::engine::wrap::{count_lines, wrap};

fn unit(id: SegmentId, width: usize) -> RenderUnit {
    let text = "x".repeat(width.saturating_sub(2));
    RenderUnit {
        id,
        icon: "i".to_string(),
        text,
        style: EffectiveStyle {
            icon_color: AnsiColor::Color16 { c16: 7 },
            text_color: AnsiColor::Color16 { c16: 7 },
            background_color: None,
            bold: false,
        },
        width,
    }
}

fn shape(lines: &Vec<Vec<RenderUnit>>) -> Vec<Vec<usize>> {
    lines.iter().map(|l| l.iter().map(|u| u.width).collect()).collect()
}

fn line_width(line: &Vec<RenderUnit>, separator: usize) -> usize {
    line.iter().map(|u| u.width).sum::<usize>() + separator * line.len().saturating_sub(1)
}

#[test]
fn directory_and_git_fit_on_one_line_at_30() {
    let units = vec![unit(SegmentId::Directory, 12), unit(SegmentId::Git, 10)];
    let lines = wrap(&units, 1, 30);
    assert_eq!(lines.len(), 1);
    assert_eq!(lines[0].len(), 2);
    assert_eq!(lines[0][0].id, SegmentId::Directory);
    assert_eq!(lines[0][1].id, SegmentId::Git);
    assert!(line_width(&lines[0], 1) <= 30);
    assert_eq!(line_width(&lines[0], 1), 23);
}

#[test]
fn directory_and_git_take_two_lines_at_15() {
    let units = vec![unit(SegmentId::Directory, 12), unit(SegmentId::Git, 10)];
    let lines = wrap(&units, 1, 15);
    assert_eq!(lines.len(), 2);
    assert_eq!(lines[0].len(), 1);
    assert_eq!(lines[1].len(), 1);
    assert_eq!(lines[0][0].id, SegmentId::Directory);
    assert_eq!(lines[1][0].id, SegmentId::Git);
}

#[test]
fn no_units_no_lines() {
    assert_eq!(wrap(&Vec::new(), 1, 80).len(), 0);
    assert_eq!(wrap(&Vec::new(), 0, 0).len(), 0);
    assert_eq!(count_lines(&Vec::new(), 2, 10), 0);
}

#[test]
fn oversized_unit_stands_alone() {
    let units = vec![unit(SegmentId::Model, 50), unit(SegmentId::Git, 3), unit(SegmentId::Cost, 3)];
    let lines = wrap(&units, 1, 10);
    assert_eq!(shape(&lines), vec![vec![50], vec![3, 3]]);
    let units = vec![unit(SegmentId::Git, 3), unit(SegmentId::Model, 50), unit(SegmentId::Cost, 3)];
    assert_eq!(shape(&wrap(&units, 1, 10)), vec![vec![3], vec![50], vec![3]]);
    let units = vec![unit(SegmentId::Model, 50)];
    assert_eq!(shape(&wrap(&units, 1, 0)), vec![vec![50]]);
}

#[test]
fn separator_counts_between_neighbours_only() {
    let units = vec![unit(SegmentId::Model, 5), unit(SegmentId::Git, 5)];
    assert_eq!(shape(&wrap(&units, 3, 13)), vec![vec![5, 5]]);
    assert_eq!(shape(&wrap(&units, 3, 12)), vec![vec![5], vec![5]]);
    assert_eq!(shape(&wrap(&units, 0, 10)), vec![vec![5, 5]]);
    let units = vec![unit(SegmentId::Model, 10)];
    assert_eq!(shape(&wrap(&units, 3, 10)), vec![vec![10]]);
}

#[test]
fn new_line_restarts_without_separator() {
    let units: Vec<RenderUnit> = [4, 4, 4, 4, 4].iter().map(|w| unit(SegmentId::Model, *w)).collect();
    assert_eq!(shape(&wrap(&units, 1, 9)), vec![vec![4, 4], vec![4, 4], vec![4]]);
    assert_eq!(shape(&wrap(&units, 1, 14)), vec![vec![4, 4, 4], vec![4, 4]]);
    assert_eq!(shape(&wrap(&units, 1, 24)), vec![vec![4, 4, 4, 4, 4]]);
    assert_eq!(shape(&wrap(&units, 1, 4)), vec![vec![4], vec![4], vec![4], vec![4], vec![4]]);
}

#[test]
fn every_unit_once_in_order() {
    let kinds = [
        SegmentId::Model,
        SegmentId::Directory,
        SegmentId::Git,
        SegmentId::ContextWindow,
        SegmentId::Usage,
        SegmentId::Cost,
        SegmentId::Session,
    ];
    let widths = [12usize, 10, 7, 30, 2, 9, 15];
    let units: Vec<RenderUnit> = kinds.iter().zip(widths.iter()).map(|(k, w)| unit(*k, *w)).collect();
    for max in 0..70usize {
        for separator in 0..4usize {
            let lines = wrap(&units, separator, max);
            let flat: Vec<(SegmentId, usize)> =
                lines.iter().flat_map(|l| l.iter().map(|u| (u.id, u.width))).collect();
            let want: Vec<(SegmentId, usize)> = units.iter().map(|u| (u.id, u.width)).collect();
            assert_eq!(flat, want);
            assert!(lines.iter().all(|l| !l.is_empty()));
            for (i, line) in lines.iter().enumerate() {
                assert!(line.len() == 1 || line_width(line, separator) <= max);
                if max >= 30 {
                    assert!(line_width(line, separator) <= max);
                }
                if i + 1 < lines.len() {
                    assert!(line_width(line, separator) + separator + lines[i + 1][0].width > max);
                }
            }
            assert_eq!(count_lines(&widths.to_vec(), separator, max), lines.len());
        }
    }
}

#[test]
fn wrapping_is_repeatable() {
    let units: Vec<RenderUnit> = [7, 3, 9, 2, 8].iter().map(|w| unit(SegmentId::Git, *w)).collect();
    assert_eq!(shape(&wrap(&units, 2, 12)), shape(&wrap(&units, 2, 12)));
    assert_eq!(shape(&wrap(&units, 2, 12)), vec![vec![7, 3], vec![9], vec![2, 8]]);
}

#[test]
fn wrap_handles_huge_widths() {
    let mut first = unit(SegmentId::Model, 2);
    first.width = usize::MAX - 1;
    let mut second = unit(SegmentId::Git, 2);
    second.width = usize::MAX - 1;
    let units = vec![first, second];
    assert_eq!(wrap(&units, usize::MAX, usize::MAX).len(), 2);
    assert_eq!(wrap(&units, 0, usize::MAX).len(), 2);
    assert_eq!(count_lines(&vec![usize::MAX, usize::MAX], 1, usize::MAX), 2);
}

#[test]
fn count_lines_examples() {
    assert_eq!(count_lines(&vec![5], 2, 0), 1);
    assert_eq!(count_lines(&vec![5, 5], 2, 12), 1);
    assert_eq!(count_lines(&vec![5, 5], 2, 11), 2);
    assert_eq!(count_lines(&vec![5, 5, 5], 2, 12), 2);
}
