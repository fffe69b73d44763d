use bbc_news_cli::image_cache::create_bbc_logo;
use bbc_news_cli::image_cache::Canvas;
use bbc_news_cli::image_cache::ImageCache;
use bbc_news_cli::image_cache::Pixel;
use bbc_news_cli::image_cache::IMAGE_CACHE_SIZE;
use bbc_news_cli::image_cache::LOGO_HEIGHT;
use bbc_news_cli::image_cache::LOGO_WIDTH;

const RED: Pixel = Pixel { red: 234, green: 68, blue: 57, alpha: 255 };
const WHITE: Pixel = Pixel { red: 255, green: 255, blue: 255, alpha: 255 };
const BLACK: Pixel = Pixel { red: 0, green: 0, blue: 0, alpha: 255 };

#[test]
fn store_holds_images_by_address() {
    let mut store: ImageCache<u32> = ImageCache::new();
    assert_eq!(IMAGE_CACHE_SIZE, 50);
    assert_eq!(store.max_size, 50);
    assert_eq!(store.len(), 0);
    assert_eq!(store.get("a"), None);
    store.insert("a".to_string(), 1);
    store.insert("b".to_string(), 2);
    assert_eq!(store.get("a"), Some(&1));
    assert_eq!(store.get("b"), Some(&2));
    assert_eq!(store.get("c"), None);
    store.insert("a".to_string(), 3);
    assert_eq!(store.len(), 2);
    assert_eq!(store.get("a"), Some(&3));
    store.clear();
    assert_eq!(store.len(), 0);
    assert_eq!(store.get("a"), None);
}

#[test]
fn a_full_store_is_emptied_before_the_next_image() {
    let mut store: ImageCache<usize> = ImageCache::new();
    for i in 0..50 {
        store.insert(format!("u{}", i), i);
    }
    assert_eq!(store.len(), 50);
    assert_eq!(store.get("u0"), Some(&0));
    store.insert("u50".to_string(), 50);
    assert_eq!(store.len(), 1);
    assert_eq!(store.get("u50"), Some(&50));
    assert_eq!(store.get("u0"), None);
    let mut small: ImageCache<usize> = ImageCache::new();
    small.max_size = 0;
    small.insert("a".to_string(), 1);
    small.insert("b".to_string(), 2);
    assert_eq!(small.len(), 1);
    assert_eq!(small.get("b"), Some(&2));
}

#[test]
fn a_canvas_of_one_colour() {
    let canvas = Canvas::filled(4, 3, RED);
    assert_eq!(canvas.height(), 3);
    for y in 0..3 {
        for x in 0..4 {
            assert_eq!(canvas.pixel(x, y), Some(RED));
        }
    }
    assert_eq!(canvas.pixel(4, 0), None);
    assert_eq!(canvas.pixel(0, 3), None);
    assert_eq!(Canvas::filled(0, 0, RED).height(), 0);
}

#[test]
fn rectangles_are_clipped_to_the_canvas() {
    let mut canvas = Canvas::filled(5, 4, RED);
    canvas.draw_rect(3, 2, 10, 10, WHITE);
    canvas.draw_rect(0, 0, 1, 1, BLACK);
    canvas.draw_rect(9, 9, 2, 2, BLACK);
    canvas.draw_rect(u32::MAX, u32::MAX, u32::MAX, u32::MAX, BLACK);
    canvas.draw_rect(1, 1, 0, 3, BLACK);
    for y in 0..4usize {
        for x in 0..5usize {
            let expected = if x >= 3 && y >= 2 {
                WHITE
            } else if x == 0 && y == 0 {
                BLACK
            } else {
                RED
            };
            assert_eq!(canvas.pixel(x, y), Some(expected), "{} {}", x, y);
        }
    }
}

#[test]
fn the_placeholder_has_three_white_blocks_on_red() {
    let logo = create_bbc_logo();
    assert_eq!(LOGO_WIDTH, 240);
    assert_eq!(LOGO_HEIGHT, 135);
    assert_eq!(logo.height(), 135);
    assert_eq!(logo.rows[0].len(), 240);
    assert_eq!(logo.rows[134].len(), 240);
    let mut white = 0;
    for y in 0..135usize {
        for x in 0..240usize {
            let in_block = (52..82).contains(&y)
                && ((80..95).contains(&x) || (100..115).contains(&x) || (125..140).contains(&x));
            let expected = if in_block { WHITE } else { RED };
            assert_eq!(logo.pixel(x, y), Some(expected), "{} {}", x, y);
            if in_block {
                white += 1;
            }
        }
    }
    assert_eq!(white, 3 * 15 * 30);
}
