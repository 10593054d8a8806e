# aquarium

The rules of a terminal aquarium simulation, verified with Verus.

- `src/` holds the integer and decision logic of the tank, each function with
  a contract and the library's laws as proof functions:
  - `tank`: tank geometry (sand height, capacity), limits on adding fish, the
    initial population, automatic care and restocking, decorations, removing fish;
  - `species`: species, life stages, display names;
  - `settings`: the player's settings (spawn toggles, feeding amount, crabs)
    and the spawn pool;
  - `predation`: who may prey on whom, who hunts, bites, kill stages and the
    piranha's meal quota;
  - `octopus`: the octopus's den cycle and ink reflex;
  - `biology`: growth and hatching;
  - `courtship`: pairing fish that are ready to breed;
  - `seabed`: trimming the items resting on the seabed and removing eaten ones;
  - `effects`: effect, sound and cameo kinds.
- `app/` holds what computes on floating-point positions: the tank's entities
  with their save-file forms and the float geometry helpers.
- `tests/` exercises the library on concrete values.
