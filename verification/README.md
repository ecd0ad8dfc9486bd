# garjan

Environmental and nature sound synthesis — weather, impacts, surfaces,
fluids, fire, creatures, aerodynamics — from physical models.

The crate is in two parts.

- `src/` is the verified library (Verus). It holds the discrete decisions
  the synthesizers make, each with a contract and the laws that tie them
  together:
  - `voice` — the priority-based voice pool: which slot a request gets,
    which voice a full pool steals under each policy, ageing and release;
  - `modal` — the excitation clock that times the impulse, noise-burst and
    half-sine pulses driving modal resonators;
  - `footstep` — the step clock of periodic and one-shot footstep
    sequences;
  - `events` — the block walk and event placement of the Poisson-scheduled
    synthesizers (rain, fire, bubbles, cloth, foliage, precipitation,
    underwater);
  - `weather` — the timeline of a thunderclap (silence, crack, rumble);
  - `lod` — mode-count scaling of the quality tiers, with single-precision
    rounding modelled exactly;
  - `material`, `contact`, `bridge` — the material mode patterns and
    counts, the terrain-to-material mapping, and the rain level of the
    severe-weather mapping;
  - the enums that name sounds, materials, terrains and tiers, and the
    error type.
- `app/` is ordinary Rust around it: the floating-point synthesizers (built
  on the `naad` DSP crate), serializable copies of the library's types with
  conversions both ways, the error messages, the physical-parameter bridges,
  builders and visualization data.

`tests/` exercises the library from outside.
