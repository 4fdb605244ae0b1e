# voidrun_godot

Decision logic of the Voidrun tactical layer, verified with Verus.

- `src/` — the library: AI melee decisions (attack / parry / wait), melee phase plans
  and hitbox polling, fire-intent validation and target switching, projectile hit
  resolution, vision tracking, navigation steps, tick schedules, player input, camera
  modes, aiming modes, collision layers and visual rules. Every public function states
  what it returns in its contract; the laws that relate several calls are public proof
  functions.
- `tests/` — scenarios on concrete values.
- `app/` — the Godot GDExtension and the Bevy client around the library: scene nodes,
  physics raycasts, float geometry, ECS systems and logging. Each system reads plain
  values from the engine, calls the library, and applies the result.
