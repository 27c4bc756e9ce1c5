//! Economy page: zodiac icon assets and the role captions of the item cards.

use vstd::prelude::*;

verus! {

/// The zodiac blessings.
#[derive(Clone, Copy, Debug, PartialEq, Eq, Structural)]
pub enum ZodiacKind {
    Mouse,
    Rat,
    Ox,
    Tiger,
    Rabbit,
    Dragon,
    Snake,
    Horse,
    Goat,
    Monkey,
    Rooster,
    Dog,
    Pig,
    Qilin,
    Phoenix,
    Crane,
    Koi,
}

/// Texture path of a zodiac's icon.
pub open spec fn zodiac_icon_spec(kind: ZodiacKind) -> &'static str {
    match kind {
        ZodiacKind::Mouse => "textures/zodiacs/zodiac_mouse.png",
        ZodiacKind::Rat => "textures/zodiacs/zodiac_rat.png",
        ZodiacKind::Ox => "textures/zodiacs/zodiac_ox.png",
        ZodiacKind::Tiger => "textures/zodiacs/zodiac_tiger.png",
        ZodiacKind::Rabbit => "textures/zodiacs/zodiac_rabbit.png",
        ZodiacKind::Dragon => "textures/zodiacs/zodiac_dragon.png",
        ZodiacKind::Snake => "textures/zodiacs/zodiac_snake.png",
        ZodiacKind::Horse => "textures/zodiacs/zodiac_horse.png",
        ZodiacKind::Goat => "textures/zodiacs/zodiac_goat.png",
        ZodiacKind::Monkey => "textures/zodiacs/zodiac_monkey.png",
        ZodiacKind::Rooster => "textures/zodiacs/zodiac_rooster.png",
        ZodiacKind::Dog => "textures/zodiacs/zodiac_dog.png",
        ZodiacKind::Pig => "textures/zodiacs/zodiac_pig.png",
        ZodiacKind::Qilin => "textures/zodiacs/zodiac_qilin.png",
        ZodiacKind::Phoenix => "textures/zodiacs/zodiac_phoenix.png",
        ZodiacKind::Crane => "textures/zodiacs/zodiac_crane.png",
        ZodiacKind::Koi => "textures/zodiacs/zodiac_koi.png",
    }
}

pub fn zodiac_icon_asset(kind: ZodiacKind) -> (r: &'static str)
    ensures
        r == zodiac_icon_spec(kind),
{
    match kind {
        ZodiacKind::Mouse => "textures/zodiacs/zodiac_mouse.png",
        ZodiacKind::Rat => "textures/zodiacs/zodiac_rat.png",
        ZodiacKind::Ox => "textures/zodiacs/zodiac_ox.png",
        ZodiacKind::Tiger => "textures/zodiacs/zodiac_tiger.png",
        ZodiacKind::Rabbit => "textures/zodiacs/zodiac_rabbit.png",
        ZodiacKind::Dragon => "textures/zodiacs/zodiac_dragon.png",
        ZodiacKind::Snake => "textures/zodiacs/zodiac_snake.png",
        ZodiacKind::Horse => "textures/zodiacs/zodiac_horse.png",
        ZodiacKind::Goat => "textures/zodiacs/zodiac_goat.png",
        ZodiacKind::Monkey => "textures/zodiacs/zodiac_monkey.png",
        ZodiacKind::Rooster => "textures/zodiacs/zodiac_rooster.png",
        ZodiacKind::Dog => "textures/zodiacs/zodiac_dog.png",
        ZodiacKind::Pig => "textures/zodiacs/zodiac_pig.png",
        ZodiacKind::Qilin => "textures/zodiacs/zodiac_qilin.png",
        ZodiacKind::Phoenix => "textures/zodiacs/zodiac_phoenix.png",
        ZodiacKind::Crane => "textures/zodiacs/zodiac_crane.png",
        ZodiacKind::Koi => "textures/zodiacs/zodiac_koi.png",
    }
}

/// Caption over an economy item card, by card position.
pub open spec fn role_label_spec(card_index: usize) -> &'static str {
    if card_index == 0 {
        "PAST PLAYER'S POWER"
    } else if card_index == 1 {
        "YAKUS REWARD MORE"
    } else if card_index == 2 {
        "REMAKE YOUR TILES"
    } else if card_index == 3 {
        "BUILD THE WALL"
    } else if card_index == 4 {
        "YOUR SAD REMAINS"
    } else {
        "MAKE A CHOICE"
    }
}

pub fn economy_item_role_label(card_index: usize) -> (r: &'static str)
    ensures
        r == role_label_spec(card_index),
{
    match card_index {
        0 => "PAST PLAYER'S POWER",
        1 => "YAKUS REWARD MORE",
        2 => "REMAKE YOUR TILES",
        3 => "BUILD THE WALL",
        4 => "YOUR SAD REMAINS",
        _ => "MAKE A CHOICE",
    }
}

} // verus!
