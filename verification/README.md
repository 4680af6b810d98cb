# heroes-of-ironhold-core

The rules of Heroes of Ironhold, a small 2D action game, as a Verus library:
every decision the game makes each frame is an executable function with a
contract, and the properties that span frames are proof functions.

- `src/` — the verified library.
  - `entity/` — the knight's and the skills' vocabulary.
  - `manager/` — the scene switch: a requested scene is loaded, then swapped
    in, and a transition is never interrupted.
  - `scene/battle_test/` — combat: damage and deaths, landing an attack's
    hits (new hit points and the events due), the peon and ram-head
    brains, the wave director, the skill selector and the skills' lifecycles
    (Blade Barrage, Shield Toss, Guardian Shield, Consecration, Divine
    Stance), dashing, and the hit detection that fires one event per swing.
  - `scene/asset_preview/` — the knight's controls, combos and poses, and the
    preview's option cycling.
  - `scene/menu/`, `scene/opening/` — menu navigation and the opening
    sequence.
  - `scene/scene_one/` — the platformer's animation choice and hurt blinking.
- `app/` — the floating-point side around the rules: cameras, steering,
  timers and colours, which measure the world and hand the rules the flags
  they decide on.
- `tests/` — executable scenarios for the library.

Frame timers, positions and rendering use `f32` and stay in `app/`; the
library takes what they measured (a timer ran out, a blade cut a ram head)
as plain values.
