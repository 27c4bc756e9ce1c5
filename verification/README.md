# mahjuro_scenes

Scene logic of the Mahjuro game UI, verified with Verus.

- `src/` — the verified library:
  - `tiles`, `hand`, `yaku`: tiles, meld decomposition of a selection (flowers
    as wildcards, Kokushi Musō), and yaku detection over the melds. They
    state the meld and yaku rules as the guide's own rule texts give them;
    the game's scoring values (base scores, chips, mult) are not part of
    this crate, so callers hand in the tablets' base-score order.
  - `guide`: the paginated guide — page chunking of the yaku, page titles and
    example tile groups, yaku example hands, meld gaps, rule texts, paging.
  - `options`: rows and sections, keyboard/controller/click handling, on/off
    settings, tile-set choice.
  - `journal`, `meld_guide`, `main_menu`, `main_menu_exterior`, `pause_menu`,
    `hallway`, `pick_blind`, `profile_select`, `results`, `material_viewer`,
    `inspect`, `scene_keys`: what each scene decides from a frame's input.
  - `text`: decimal text of numbers.
- `app/` — the floating-point side (animation progress, slider values,
  scroll offsets, moth phases), which feeds and applies the library's
  decisions.
- `tests/` — tests of the library on concrete inputs.
