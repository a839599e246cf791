# Fortress

The rules of Fortress, a tower defense game in which a fortress defends itself
from swarms of bugs at night and prepares for the next night during the day.

- `src/` is the verified library: the population and what a bug that enters
  the fortress does to it, the buildings and their production, research,
  expeditions, weapon spots and explosives, the weapons' fire strategies and
  targeting, the night's enemy count and resource warnings, and the decisions
  that the keyboard asks for. Each public function carries a contract, and the
  laws of the game stand there as proof functions named `law_*`.
- `tests/` exercises the library on concrete values.
- `app/` is the game itself: the window, the user interface, sprites, sound,
  saving and loading, and the parts of the game that compute with floating
  point (positions, health, resources); it calls the library for every rule
  that the library holds.
