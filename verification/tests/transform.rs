use image_processor::bitmap::{sample_count, Image};
use image_processor::raster::Layout;
use image_processor::request::{parse_request, Request};
use image_processor::transform::{brighten, crop, generate, grayscale, invert, rotate};

fn layouts() -> [Layout; 4] {
    [Layout::Luma, Layout::LumaAlpha, Layout::Rgb, Layout::Rgba]
}

/// An image whose samples all differ as far as a byte allows.
fn sample_image(layout: Layout, width: u32, height: u32) -> Image {
    let count = sample_count(layout, width, height).unwrap();
    let samples: Vec<u8> = (0..count).map(|i| ((i * 37 + 11) % 256) as u8).collect();
    Image::new(layout, width, height, samples).unwrap()
}

fn shapes() -> [(u32, u32); 9] {
    [(0, 0), (0, 3), (3, 0), (1, 1), (1, 4), (4, 1), (2, 2), (4, 3), (5, 7)]
}

fn is_alpha(layout: Layout, c: usize) -> bool {
    layout.with_alpha() && c + 1 == layout.channel_count()
}

#[test]
fn layout_counts_its_channels() {
    assert_eq!(Layout::Luma.channel_count(), 1);
    assert_eq!(Layout::LumaAlpha.channel_count(), 2);
    assert_eq!(Layout::Rgb.channel_count(), 3);
    assert_eq!(Layout::Rgba.channel_count(), 4);
    assert!(!Layout::Luma.with_alpha());
    assert!(Layout::LumaAlpha.with_alpha());
    assert!(!Layout::Rgb.with_alpha());
    assert!(Layout::Rgba.with_alpha());
    assert_eq!(Layout::Luma.to_gray(), Layout::Luma);
    assert_eq!(Layout::LumaAlpha.to_gray(), Layout::LumaAlpha);
    assert_eq!(Layout::Rgb.to_gray(), Layout::Luma);
    assert_eq!(Layout::Rgba.to_gray(), Layout::LumaAlpha);
}

#[test]
fn sample_count_multiplies_or_gives_up() {
    assert_eq!(sample_count(Layout::Rgb, 10, 20), Some(600));
    assert_eq!(sample_count(Layout::Rgba, 0, 20), Some(0));
    assert_eq!(sample_count(Layout::Luma, 1, 1), Some(1));
    assert_eq!(sample_count(Layout::Rgba, u32::MAX, u32::MAX), None);
}

#[test]
fn image_new_wants_one_sample_for_each_channel_of_each_pixel() {
    assert!(Image::new(Layout::Rgb, 2, 2, vec![0; 12]).is_some());
    assert!(Image::new(Layout::Rgb, 2, 2, vec![0; 11]).is_none());
    assert!(Image::new(Layout::Rgb, 2, 2, vec![0; 13]).is_none());
    assert!(Image::new(Layout::Rgba, 2, 2, vec![0; 16]).is_some());
    assert!(Image::new(Layout::Luma, 0, 5, vec![]).is_some());
    assert!(Image::new(Layout::Luma, u32::MAX, u32::MAX, vec![]).is_none());
}

#[test]
fn image_hands_back_what_it_was_made_of() {
    let img = Image::new(Layout::LumaAlpha, 3, 2, (0..12).collect()).unwrap();
    assert_eq!(img.layout(), Layout::LumaAlpha);
    assert_eq!(img.width(), 3);
    assert_eq!(img.height(), 2);
    assert_eq!(img.samples(), &(0..12).collect::<Vec<u8>>());
    assert_eq!(img.clone(), img);
    assert_eq!(img.into_parts(), (Layout::LumaAlpha, 3, 2, (0..12).collect::<Vec<u8>>()));
}

#[test]
fn sample_finds_a_channel_of_a_pixel() {
    let img = Image::new(Layout::Rgb, 2, 2, (0..12).collect()).unwrap();
    assert_eq!(img.sample(0, 0, 0), Some(0));
    assert_eq!(img.sample(1, 0, 2), Some(5));
    assert_eq!(img.sample(0, 1, 0), Some(6));
    assert_eq!(img.sample(1, 1, 2), Some(11));
    assert_eq!(img.sample(2, 0, 0), None);
    assert_eq!(img.sample(0, 2, 0), None);
    assert_eq!(img.sample(0, 0, 3), None);
}

#[test]
fn invert_turns_each_color_sample_around() {
    let img = Image::new(Layout::Rgb, 2, 1, vec![0, 10, 255, 1, 2, 3]).unwrap();
    let out = invert(img);
    assert_eq!(out.layout(), Layout::Rgb);
    assert_eq!(out.width(), 2);
    assert_eq!(out.height(), 1);
    assert_eq!(out.samples(), &vec![255, 245, 0, 254, 253, 252]);
}

#[test]
fn invert_leaves_opacity_alone() {
    let img = Image::new(Layout::Rgba, 1, 1, vec![0, 10, 255, 77]).unwrap();
    let out = invert(img);
    assert_eq!(out.samples(), &vec![255, 245, 0, 77]);
    let img = Image::new(Layout::LumaAlpha, 1, 1, vec![3, 77]).unwrap();
    let out = invert(img);
    assert_eq!(out.samples(), &vec![252, 77]);
}

#[test]
fn invert_twice_gives_the_image_back() {
    for layout in layouts() {
        let img = sample_image(layout, 5, 3);
        assert_ne!(invert(img.clone()), img);
        assert_eq!(invert(invert(img.clone())), img);
    }
}

#[test]
fn invert_follows_its_rule_in_every_layout() {
    for layout in layouts() {
        for (width, height) in shapes() {
            let img = sample_image(layout, width, height);
            let out = invert(img.clone());
            assert_eq!((out.layout(), out.width(), out.height()), (layout, width, height));
            assert_eq!(out.samples().len(), img.samples().len());
            for y in 0..height {
                for x in 0..width {
                    for c in 0..layout.channel_count() {
                        let before = img.sample(x, y, c).unwrap();
                        let wanted = if is_alpha(layout, c) { before } else { 255 - before };
                        assert_eq!(out.sample(x, y, c), Some(wanted));
                    }
                }
            }
        }
    }
}

#[test]
fn brighten_follows_its_rule_in_every_layout() {
    for layout in layouts() {
        for (width, height) in shapes() {
            let img = sample_image(layout, width, height);
            for amount in [i32::MIN, -300, -255, -100, -1, 0, 1, 100, 255, 300, i32::MAX] {
                let out = brighten(img.clone(), amount);
                assert_eq!((out.layout(), out.width(), out.height()), (layout, width, height));
                assert_eq!(out.samples().len(), img.samples().len());
                for y in 0..height {
                    for x in 0..width {
                        for c in 0..layout.channel_count() {
                            let before = img.sample(x, y, c).unwrap();
                            let wanted = if is_alpha(layout, c) {
                                before
                            } else {
                                (before as i64 + amount as i64).clamp(0, 255) as u8
                            };
                            assert_eq!(out.sample(x, y, c), Some(wanted));
                        }
                    }
                }
            }
        }
    }
}

#[test]
fn brighten_adds_and_holds_within_a_byte() {
    let img = Image::new(Layout::Rgb, 2, 1, vec![0, 100, 200, 250, 5, 255]).unwrap();
    assert_eq!(brighten(img.clone(), 10).samples(), &vec![10, 110, 210, 255, 15, 255]);
    assert_eq!(brighten(img.clone(), -10).samples(), &vec![0, 90, 190, 240, 0, 245]);
    assert_eq!(brighten(img.clone(), 0), img);
    assert_eq!(brighten(img.clone(), 255).samples(), &vec![255; 6]);
    assert_eq!(brighten(img.clone(), -255).samples(), &vec![0; 6]);
}

#[test]
fn brighten_takes_any_amount() {
    let img = Image::new(Layout::Rgb, 1, 2, vec![0, 1, 2, 253, 254, 255]).unwrap();
    assert_eq!(brighten(img.clone(), i32::MAX).samples(), &vec![255; 6]);
    assert_eq!(brighten(img.clone(), i32::MAX - 255).samples(), &vec![255; 6]);
    assert_eq!(brighten(img.clone(), i32::MAX - 254).samples(), &vec![255; 6]);
    assert_eq!(brighten(img.clone(), i32::MIN).samples(), &vec![0; 6]);
}

#[test]
fn brighten_leaves_opacity_alone() {
    let img = Image::new(Layout::Rgba, 1, 1, vec![10, 20, 30, 40]).unwrap();
    assert_eq!(brighten(img, 100).samples(), &vec![110, 120, 130, 40]);
    let img = Image::new(Layout::LumaAlpha, 1, 1, vec![10, 40]).unwrap();
    assert_eq!(brighten(img, -100).samples(), &vec![0, 40]);
    let img = Image::new(Layout::Luma, 2, 1, vec![10, 40]).unwrap();
    assert_eq!(brighten(img, 1).samples(), &vec![11, 41]);
}

#[test]
fn grayscale_weighs_the_colors() {
    let img = Image::new(
        Layout::Rgb,
        5,
        1,
        vec![255, 0, 0, 0, 255, 0, 0, 0, 255, 255, 255, 255, 10, 20, 30],
    )
    .unwrap();
    let out = grayscale(img);
    assert_eq!(out.layout(), Layout::Luma);
    assert_eq!((out.width(), out.height()), (5, 1));
    assert_eq!(out.samples(), &vec![54, 182, 18, 255, 18]);
}

#[test]
fn grayscale_keeps_opacity() {
    let img = Image::new(Layout::Rgba, 2, 1, vec![255, 0, 0, 9, 0, 0, 0, 200]).unwrap();
    let out = grayscale(img);
    assert_eq!(out.layout(), Layout::LumaAlpha);
    assert_eq!(out.samples(), &vec![54, 9, 0, 200]);
}

#[test]
fn grayscale_keeps_what_is_gray_already() {
    let img = sample_image(Layout::Luma, 3, 3);
    assert_eq!(grayscale(img.clone()), img);
    let img = sample_image(Layout::LumaAlpha, 3, 3);
    assert_eq!(grayscale(img.clone()), img);
}

#[test]
fn grayscale_follows_its_rule_in_every_layout() {
    for layout in layouts() {
        for (width, height) in shapes() {
            let img = sample_image(layout, width, height);
            let out = grayscale(img.clone());
            assert_eq!((out.layout(), out.width(), out.height()), (layout.to_gray(), width, height));
            assert_eq!(
                out.samples().len(),
                sample_count(layout.to_gray(), width, height).unwrap()
            );
            for y in 0..height {
                for x in 0..width {
                    let wanted = if layout == Layout::Luma || layout == Layout::LumaAlpha {
                        img.sample(x, y, 0).unwrap()
                    } else {
                        let red = img.sample(x, y, 0).unwrap() as u32;
                        let green = img.sample(x, y, 1).unwrap() as u32;
                        let blue = img.sample(x, y, 2).unwrap() as u32;
                        ((2126 * red + 7152 * green + 722 * blue) / 10000) as u8
                    };
                    assert_eq!(out.sample(x, y, 0), Some(wanted));
                    if layout.with_alpha() {
                        let alpha = img.sample(x, y, layout.channel_count() - 1);
                        assert_eq!(out.sample(x, y, 1), alpha);
                    }
                }
            }
        }
    }
}

#[test]
fn crop_cuts_out_a_rectangle() {
    let img = Image::new(Layout::Luma, 4, 3, (0..12).collect()).unwrap();
    let out = crop(img, 1, 1, 2, 2);
    assert_eq!((out.width(), out.height()), (2, 2));
    assert_eq!(out.samples(), &vec![5, 6, 9, 10]);
}

#[test]
fn crop_from_the_top_left_keeps_the_pixels_in_place() {
    for layout in layouts() {
        let img = sample_image(layout, 6, 5);
        for (width, height) in [(0u32, 0u32), (1, 1), (3, 2), (6, 1), (1, 5), (6, 5)] {
            let out = crop(img.clone(), 0, 0, width, height);
            assert_eq!((out.layout(), out.width(), out.height()), (layout, width, height));
            for y in 0..height {
                for x in 0..width {
                    for c in 0..layout.channel_count() {
                        assert_eq!(out.sample(x, y, c), img.sample(x, y, c));
                    }
                }
            }
        }
    }
}

#[test]
fn crop_keeps_to_the_image() {
    let img = Image::new(Layout::Luma, 4, 3, (0..12).collect()).unwrap();
    let out = crop(img.clone(), 2, 1, 10, 10);
    assert_eq!((out.width(), out.height()), (2, 2));
    assert_eq!(out.samples(), &vec![6, 7, 10, 11]);
    let out = crop(img.clone(), 4, 0, 1, 1);
    assert_eq!((out.width(), out.height()), (0, 1));
    assert_eq!(out.samples(), &Vec::<u8>::new());
    let out = crop(img.clone(), 9, 9, 1, 1);
    assert_eq!((out.width(), out.height()), (0, 0));
    let out = crop(img.clone(), u32::MAX, u32::MAX, u32::MAX, u32::MAX);
    assert_eq!((out.width(), out.height()), (0, 0));
    let out = crop(img.clone(), 0, 0, u32::MAX, u32::MAX);
    assert_eq!(out, img);
}

#[test]
fn crop_follows_its_rule_in_every_layout() {
    let corners = [0u32, 1, 2, 4, 5, 9, u32::MAX];
    let sizes = [0u32, 1, 3, 5, 9, u32::MAX];
    for layout in layouts() {
        for (full_width, full_height) in shapes() {
            let img = sample_image(layout, full_width, full_height);
            for x in corners {
                for y in corners {
                    for width in sizes {
                        for height in sizes {
                            let out = crop(img.clone(), x, y, width, height);
                            let left = x.min(full_width);
                            let top = y.min(full_height);
                            let wide = width.min(full_width - left);
                            let high = height.min(full_height - top);
                            assert_eq!((out.layout(), out.width(), out.height()), (layout, wide, high));
                            assert_eq!(
                                out.samples().len(),
                                sample_count(layout, wide, high).unwrap()
                            );
                            for j in 0..high {
                                for i in 0..wide {
                                    for c in 0..layout.channel_count() {
                                        assert_eq!(
                                            out.sample(i, j, c),
                                            img.sample(left + i, top + j, c)
                                        );
                                    }
                                }
                            }
                        }
                    }
                }
            }
        }
    }
}

#[test]
fn rotate_by_a_quarter_puts_the_left_column_on_top() {
    // 0 1 2      3 0
    // 3 4 5  ->  4 1
    //            5 2
    let img = Image::new(Layout::Luma, 3, 2, (0..6).collect()).unwrap();
    let out = rotate(img, 90).unwrap();
    assert_eq!((out.width(), out.height()), (2, 3));
    assert_eq!(out.samples(), &vec![3, 0, 4, 1, 5, 2]);
}

#[test]
fn rotate_by_a_half_turns_the_image_upside_down() {
    let img = Image::new(Layout::Luma, 3, 2, (0..6).collect()).unwrap();
    let out = rotate(img, 180).unwrap();
    assert_eq!((out.width(), out.height()), (3, 2));
    assert_eq!(out.samples(), &vec![5, 4, 3, 2, 1, 0]);
}

#[test]
fn rotate_by_three_quarters_puts_the_top_row_on_the_left() {
    // 0 1 2      2 5
    // 3 4 5  ->  1 4
    //            0 3
    let img = Image::new(Layout::Luma, 3, 2, (0..6).collect()).unwrap();
    let out = rotate(img, 270).unwrap();
    assert_eq!((out.width(), out.height()), (2, 3));
    assert_eq!(out.samples(), &vec![2, 5, 1, 4, 0, 3]);
}

#[test]
fn rotate_moves_whole_pixels() {
    let img = Image::new(Layout::Rgb, 2, 1, vec![1, 2, 3, 4, 5, 6]).unwrap();
    assert_eq!(rotate(img.clone(), 90).unwrap().samples(), &vec![1, 2, 3, 4, 5, 6]);
    assert_eq!(rotate(img.clone(), 180).unwrap().samples(), &vec![4, 5, 6, 1, 2, 3]);
    assert_eq!(rotate(img.clone(), 270).unwrap().samples(), &vec![4, 5, 6, 1, 2, 3]);
    assert_eq!(rotate(img.clone(), 90).unwrap().width(), 1);
    assert_eq!(rotate(img.clone(), 90).unwrap().height(), 2);
}

#[test]
fn rotate_follows_its_rule_in_every_layout() {
    for layout in layouts() {
        for (width, height) in shapes() {
            let img = sample_image(layout, width, height);
            let quarter = rotate(img.clone(), 90).unwrap();
            let half = rotate(img.clone(), 180).unwrap();
            let three = rotate(img.clone(), 270).unwrap();
            assert_eq!((quarter.layout(), quarter.width(), quarter.height()), (layout, height, width));
            assert_eq!((half.layout(), half.width(), half.height()), (layout, width, height));
            assert_eq!((three.layout(), three.width(), three.height()), (layout, height, width));
            assert_eq!(quarter.samples().len(), img.samples().len());
            assert_eq!(half.samples().len(), img.samples().len());
            assert_eq!(three.samples().len(), img.samples().len());
            for y in 0..height {
                for x in 0..width {
                    for c in 0..layout.channel_count() {
                        let sample = img.sample(x, y, c);
                        assert_eq!(quarter.sample(height - 1 - y, x, c), sample);
                        assert_eq!(half.sample(width - 1 - x, height - 1 - y, c), sample);
                        assert_eq!(three.sample(y, width - 1 - x, c), sample);
                    }
                }
            }
        }
    }
}

#[test]
fn rotate_four_quarters_gives_the_image_back() {
    for layout in layouts() {
        let img = sample_image(layout, 4, 3);
        let once = rotate(img.clone(), 90).unwrap();
        let twice = rotate(once, 90).unwrap();
        assert_eq!(twice, rotate(img.clone(), 180).unwrap());
        let thrice = rotate(twice, 90).unwrap();
        assert_eq!(thrice, rotate(img.clone(), 270).unwrap());
        assert_eq!(rotate(thrice, 90).unwrap(), img);
    }
}

#[test]
fn rotate_refuses_other_angles() {
    let img = Image::new(Layout::Luma, 3, 2, (0..6).collect()).unwrap();
    for degrees in [0u32, 1, 45, 89, 91, 360, 450, u32::MAX] {
        assert_eq!(rotate(img.clone(), degrees), None);
    }
}

#[test]
fn transformations_take_an_image_without_pixels() {
    for layout in layouts() {
        let img = Image::new(layout, 0, 7, vec![]).unwrap();
        assert_eq!(invert(img.clone()), img);
        assert_eq!(brighten(img.clone(), 5), img);
        assert_eq!(grayscale(img.clone()), Image::new(layout.to_gray(), 0, 7, vec![]).unwrap());
        assert_eq!(crop(img.clone(), 0, 0, 1, 1), Image::new(layout, 0, 1, vec![]).unwrap());
        assert_eq!(rotate(img.clone(), 90), Image::new(layout, 7, 0, vec![]));
        assert_eq!(rotate(img.clone(), 180), Some(img.clone()));
    }
}

#[test]
fn generate_fills_with_one_color() {
    let img = generate(10, 20, [1, 2, 3]).unwrap();
    assert_eq!(img.layout(), Layout::Rgb);
    assert_eq!(img.width(), 10);
    assert_eq!(img.height(), 20);
    assert_eq!(img.samples().len(), 600);
    for y in 0..20 {
        for x in 0..10 {
            assert_eq!(img.sample(x, y, 0), Some(1));
            assert_eq!(img.sample(x, y, 1), Some(2));
            assert_eq!(img.sample(x, y, 2), Some(3));
        }
    }
}

#[test]
fn generate_without_a_color_is_white() {
    let parameters = vec!["out.png".to_string(), "10".to_string(), "20".to_string()];
    match parse_request("generate", &parameters) {
        Ok(Request::Generate { width, height, color, .. }) => {
            let img = generate(width, height, color).unwrap();
            assert_eq!((img.width(), img.height()), (10, 20));
            assert_eq!(img.samples(), &vec![255u8; 600]);
        }
        other => panic!("{:?}", other),
    }
}

#[test]
fn generate_with_nothing_but_a_file_is_large_and_white() {
    match parse_request("generate", &vec!["out.png".to_string()]) {
        Ok(Request::Generate { width, height, color, .. }) => {
            let img = generate(width, height, color).unwrap();
            assert_eq!((img.width(), img.height()), (800, 600));
            assert_eq!(img.samples().len(), 800 * 600 * 3);
            assert!(img.samples().iter().all(|&sample| sample == 255));
        }
        other => panic!("{:?}", other),
    }
}

#[test]
fn generate_with_a_color_has_that_color_everywhere() {
    let parameters: Vec<String> =
        ["out.png", "10", "20", "1,2,3"].iter().map(|text| text.to_string()).collect();
    match parse_request("generate", &parameters) {
        Ok(Request::Generate { width, height, color, .. }) => {
            let img = generate(width, height, color).unwrap();
            assert_eq!((img.width(), img.height()), (10, 20));
            assert!(img.samples().chunks(3).all(|pixel| pixel == [1, 2, 3]));
        }
        other => panic!("{:?}", other),
    }
}

#[test]
fn generate_follows_its_rule_in_every_shape() {
    for (width, height) in shapes() {
        let img = generate(width, height, [200, 100, 50]).unwrap();
        assert_eq!((img.layout(), img.width(), img.height()), (Layout::Rgb, width, height));
        assert_eq!(img.samples().len(), sample_count(Layout::Rgb, width, height).unwrap());
        for y in 0..height {
            for x in 0..width {
                assert_eq!(img.sample(x, y, 0), Some(200));
                assert_eq!(img.sample(x, y, 1), Some(100));
                assert_eq!(img.sample(x, y, 2), Some(50));
            }
        }
    }
}

#[test]
fn generate_makes_an_image_without_pixels() {
    assert_eq!(generate(0, 5, [1, 2, 3]), Image::new(Layout::Rgb, 0, 5, vec![]));
    assert_eq!(generate(5, 0, [1, 2, 3]), Image::new(Layout::Rgb, 5, 0, vec![]));
}

#[test]
fn generate_gives_up_on_what_memory_cannot_hold() {
    assert_eq!(generate(u32::MAX, u32::MAX, [0, 0, 0]), None);
}
