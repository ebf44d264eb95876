use spitz::{rebatch, split_train_test, Blueprint, NetError, RowRange, Shape};

fn take(m: &[Vec<f64>], r: &RowRange) -> Vec<Vec<f64>> {
    m[r.start..r.end].to_vec()
}

#[test]
fn import_datas() {
    let x = vec![
        vec![0., 1., 2.],
        vec![3., 4., 5.],
        vec![6., 7., 8.],
        vec![9., 10., 11.],
    ];
    let y = vec![vec![0.], vec![1.], vec![2.], vec![3.]];
    let wanted = (x.len() as f64 * 0.25).round() as usize;

    let mut network = Blueprint::new();
    let split = network
        .import_datas(Shape::new(4, 3), Shape::new(4, 1), wanted)
        .unwrap();
    let batches = rebatch(split.train.end, split.train.end, network.batches).unwrap();

    assert_eq!(take(&x, &split.test), vec![vec![9., 10., 11.]]);
    assert_eq!(take(&y, &split.test), vec![vec![3.]]);
    assert_eq!(batches.len(), 1);
    assert_eq!(
        take(&x, &batches[0]),
        vec![vec![0., 1., 2.], vec![3., 4., 5.], vec![6., 7., 8.]]
    );
    assert_eq!(take(&y, &batches[0]), vec![vec![0.], vec![1.], vec![2.]]);
    assert_eq!(network.train_rows, Some(3));
    assert_eq!(network.test_rows, Some(1));
}

#[test]
fn import_datas_no_test() {
    let x = vec![
        vec![0., 1., 2.],
        vec![1., 2., 3.],
        vec![2., 3., 4.],
        vec![3., 4., 5.],
    ];
    let y = vec![vec![0.], vec![1.], vec![2.], vec![3.]];

    let mut network = Blueprint::new();
    network.import_train_datas(Shape::new(4, 3), Shape::new(4, 1)).unwrap();
    let rows = network.train_rows.unwrap();
    let batches = rebatch(rows, rows, network.batches).unwrap();

    assert_eq!(batches, vec![RowRange { start: 0, end: 4 }]);
    assert_eq!(take(&x, &batches[0]), x);
    assert_eq!(take(&y, &batches[0]), y);
    assert_eq!(network.test_rows, None);
}

#[test]
fn import_datas_batches() {
    let x = vec![
        vec![0., 1., 2.],
        vec![1., 2., 3.],
        vec![2., 3., 4.],
        vec![3., 4., 5.],
    ];
    let y = vec![vec![0.], vec![1.], vec![2.], vec![3.]];

    let mut network = Blueprint::new();
    network.import_train_datas(Shape::new(4, 3), Shape::new(4, 1)).unwrap();
    network.set_batches(1);
    let rows = network.train_rows.unwrap();
    let batches = rebatch(rows, rows, network.batches).unwrap();

    let cut_x: Vec<Vec<Vec<f64>>> = batches.iter().map(|r| take(&x, r)).collect();
    let cut_y: Vec<Vec<Vec<f64>>> = batches.iter().map(|r| take(&y, r)).collect();
    assert_eq!(
        cut_x,
        vec![
            vec![vec![0., 1., 2.]],
            vec![vec![1., 2., 3.]],
            vec![vec![2., 3., 4.]],
            vec![vec![3., 4., 5.]],
        ]
    );
    assert_eq!(cut_y, vec![vec![vec![0.]], vec![vec![1.]], vec![vec![2.]], vec![vec![3.]]]);
}

#[test]
fn import_refuses_misaligned_data() {
    let mut network = Blueprint::new();
    assert_eq!(
        network.import_train_datas(Shape::new(4, 3), Shape::new(3, 1)),
        Err(NetError::ShapeMismatch)
    );
    assert_eq!(
        network.import_test_datas(Shape::new(2, 3), Shape::new(5, 1)),
        Err(NetError::ShapeMismatch)
    );
    assert_eq!(
        network.import_datas(Shape::new(4, 3), Shape::new(5, 1), 1),
        Err(NetError::ShapeMismatch)
    );
    assert_eq!(network.train_rows, None);
    assert_eq!(network.test_rows, None);
    assert_eq!(network.import_test_datas(Shape::new(2, 3), Shape::new(2, 1)), Ok(()));
    assert_eq!(network.test_rows, Some(2));
}

#[test]
fn rebatch_round_trip() {
    let batches = rebatch(10, 10, 3).unwrap();
    assert_eq!(
        batches,
        vec![
            RowRange { start: 0, end: 3 },
            RowRange { start: 3, end: 6 },
            RowRange { start: 6, end: 9 },
            RowRange { start: 9, end: 10 },
        ]
    );
    let rows: Vec<usize> = batches.iter().flat_map(|r| r.start..r.end).collect();
    assert_eq!(rows, (0..10).collect::<Vec<usize>>());
    assert_eq!(batches[3].len(), 1);
}

#[test]
fn rebatch_edges() {
    assert_eq!(rebatch(9, 9, 3).unwrap().len(), 3);
    assert_eq!(rebatch(4, 4, 15).unwrap(), vec![RowRange { start: 0, end: 4 }]);
    assert_eq!(rebatch(0, 0, 2).unwrap(), vec![]);
    assert_eq!(rebatch(4, 4, 0), Err(NetError::Configuration));
    assert_eq!(rebatch(4, 3, 2), Err(NetError::ShapeMismatch));
    assert_eq!(
        rebatch(usize::MAX, usize::MAX, usize::MAX - 1).unwrap(),
        vec![
            RowRange { start: 0, end: usize::MAX - 1 },
            RowRange { start: usize::MAX - 1, end: usize::MAX },
        ]
    );
}

#[test]
fn split_keeps_a_row_on_each_side() {
    let s = split_train_test(2, 2, 0).unwrap();
    assert_eq!(s.train, RowRange { start: 0, end: 1 });
    assert_eq!(s.test, RowRange { start: 1, end: 2 });
    let s = split_train_test(2, 2, 5).unwrap();
    assert_eq!(s.train, RowRange { start: 0, end: 1 });
    assert_eq!(s.test, RowRange { start: 1, end: 2 });
    let s = split_train_test(10, 10, 10).unwrap();
    assert_eq!(s.train, RowRange { start: 0, end: 1 });
    assert_eq!(s.test, RowRange { start: 1, end: 10 });
}

#[test]
fn split_without_clamping() {
    let s = split_train_test(10, 10, 3).unwrap();
    assert_eq!(s.train, RowRange { start: 0, end: 7 });
    assert_eq!(s.test, RowRange { start: 7, end: 10 });
    assert_eq!(s.train.len() + s.test.len(), 10);
}

#[test]
fn split_errors() {
    assert_eq!(split_train_test(1, 1, 0), Err(NetError::Configuration));
    assert_eq!(split_train_test(0, 0, 0), Err(NetError::Configuration));
    assert_eq!(split_train_test(5, 4, 1), Err(NetError::ShapeMismatch));
}
