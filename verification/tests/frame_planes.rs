use vidplayer::{
    Error, PixelFormat, PlaneData, PlaneGeometry, copy_data_from_frame_planes,
    copy_data_to_frame_planes, copy_frame_data, plane_layout, planes_fit,
};

fn geometry(format: PixelFormat, w: u32, h: u32) -> Vec<(usize, usize)> {
    plane_layout(format, w, h).into_iter().map(|g| (g.row_bytes, g.rows)).collect()
}

#[test]
fn plane_layout_of_each_format() {
    assert_eq!(geometry(PixelFormat::Bgra, 4, 2), vec![(16, 2)]);
    assert_eq!(geometry(PixelFormat::Rgba, 3, 1), vec![(12, 1)]);
    assert_eq!(geometry(PixelFormat::Rgb24, 4, 2), vec![(12, 2)]);
    assert_eq!(geometry(PixelFormat::Bgr24, 5, 3), vec![(15, 3)]);
    assert_eq!(geometry(PixelFormat::Yuv420p, 4, 4), vec![(4, 4), (2, 2), (2, 2)]);
    assert_eq!(geometry(PixelFormat::Yuv420p, 5, 3), vec![(5, 3), (2, 1), (2, 1)]);
    assert_eq!(geometry(PixelFormat::Yuv420p10, 4, 2), vec![(8, 2), (4, 1), (4, 1)]);
    assert_eq!(geometry(PixelFormat::Yuv422p, 4, 2), vec![(4, 2), (2, 2), (2, 2)]);
    assert_eq!(geometry(PixelFormat::Yuv444p, 2, 2), vec![(2, 2), (2, 2), (2, 2)]);
    assert_eq!(geometry(PixelFormat::Nv12, 4, 4), vec![(4, 4), (4, 2)]);
    assert_eq!(geometry(PixelFormat::P010le, 4, 2), vec![(8, 2), (8, 1)]);
    let g = plane_layout(PixelFormat::Nv12, 2, 2);
    assert_eq!(g[0], PlaneGeometry { row_bytes: 2, rows: 2 });
}

fn nv12_planes() -> Vec<PlaneData> {
    // 2x2 frame, luma stride 4 (two bytes of padding per row), chroma stride 3.
    vec![
        PlaneData { data: vec![1, 2, 90, 91, 3, 4, 92, 93], stride: 4 },
        PlaneData { data: vec![5, 6, 94], stride: 3 },
    ]
}

#[test]
fn copy_frame_data_drops_row_padding() {
    let out = copy_frame_data(&nv12_planes(), PixelFormat::Nv12, 2, 2);
    assert_eq!(out, vec![1, 2, 3, 4, 5, 6]);
}

#[test]
fn copy_frame_data_packed_rgb() {
    let planes = vec![PlaneData { data: vec![1, 2, 3, 0, 4, 5, 6, 0], stride: 4 }];
    let out = copy_frame_data(&planes, PixelFormat::Rgb24, 1, 2);
    assert_eq!(out, vec![1, 2, 3, 4, 5, 6]);
}

#[test]
fn copy_data_from_frame_planes_refuses_p010() {
    let planes = vec![
        PlaneData { data: vec![0; 16], stride: 8 },
        PlaneData { data: vec![0; 8], stride: 8 },
    ];
    let r = copy_data_from_frame_planes(&planes, PixelFormat::P010le, 4, 2);
    assert!(matches!(r, Err(Error::UnsupportedFormat)));
}

#[test]
fn copy_data_from_frame_planes_packs_yuv() {
    let planes = vec![
        PlaneData { data: vec![1, 2, 0, 3, 4, 0], stride: 3 },
        PlaneData { data: vec![5, 0], stride: 2 },
        PlaneData { data: vec![6, 0], stride: 2 },
    ];
    let r = copy_data_from_frame_planes(&planes, PixelFormat::Yuv420p, 2, 2).unwrap();
    assert_eq!(r, vec![1, 2, 3, 4, 5, 6]);
}

#[test]
fn copy_data_to_frame_planes_keeps_padding() {
    let mut planes = vec![
        PlaneData { data: vec![0, 0, 77, 0, 0, 77], stride: 3 },
        PlaneData { data: vec![0, 0, 88], stride: 3 },
    ];
    let frame = vec![1, 2, 3, 4, 5, 6];
    copy_data_to_frame_planes(&mut planes, &frame, PixelFormat::Nv12, 2, 2);
    assert_eq!(planes[0].data, vec![1, 2, 77, 3, 4, 77]);
    assert_eq!(planes[1].data, vec![5, 6, 88]);
}

#[test]
fn pack_after_unpack_gives_the_frame_back() {
    let mut planes = vec![
        PlaneData { data: vec![9; 10], stride: 5 },
        PlaneData { data: vec![9; 3], stride: 3 },
        PlaneData { data: vec![9; 3], stride: 3 },
    ];
    let frame: Vec<u8> = vec![10, 11, 12, 13, 14, 15, 16, 17, 18, 19, 20, 21];
    copy_data_to_frame_planes(&mut planes, &frame, PixelFormat::Yuv420p, 4, 2);
    let back = copy_frame_data(&planes, PixelFormat::Yuv420p, 4, 2);
    assert_eq!(back, frame);
}

#[test]
fn planes_fit_checks_every_plane() {
    let ok = vec![
        PlaneData { data: vec![0; 7], stride: 4 },
        PlaneData { data: vec![0; 3], stride: 4 },
    ];
    assert!(planes_fit(&ok, PixelFormat::Nv12, 3, 2));
    let short = vec![
        PlaneData { data: vec![0; 6], stride: 4 },
        PlaneData { data: vec![0; 3], stride: 3 },
    ];
    assert!(!planes_fit(&short, PixelFormat::Nv12, 3, 2));
    let missing = vec![PlaneData { data: vec![0; 16], stride: 4 }];
    assert!(!planes_fit(&missing, PixelFormat::Nv12, 2, 2));
}

#[test]
fn write_then_read_through_frame_planes() {
    let mut planes = vec![
        PlaneData { data: vec![0; 8], stride: 4 },
        PlaneData { data: vec![0; 3], stride: 3 },
        PlaneData { data: vec![0; 3], stride: 3 },
    ];
    let frame: Vec<u8> = (1..=12).collect();
    copy_data_to_frame_planes(&mut planes, &frame, PixelFormat::Yuv420p, 4, 2);
    assert_eq!(planes[0].data.len(), 8);
    assert!(planes_fit(&planes, PixelFormat::Yuv420p, 4, 2));
    let back = copy_data_from_frame_planes(&planes, PixelFormat::Yuv420p, 4, 2).unwrap();
    assert_eq!(back, frame);
}
