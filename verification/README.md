# care_children

The state and rules of a small parental internet guard with a desktop window.

- `src/` is the verified library (Verus):
  - `model.rs`: the data types, the abstract state `GuardView` and `step`, the
    function that says how each message changes the state;
  - `lists.rs`: copying, filtering and searching the blacklist and the selection;
  - `guard.rs`: the `Guard` state, its starting value and `Guard::update`;
  - `screens.rs`: what each page and the edit dialog show and which controls are active;
  - `laws.rs`: properties across messages (selection without repeats, toggling
    twice, cancelled and saved edits, delete after add).
- `app/main.rs` draws the screens with iced and performs the window actions.
- `tests/` exercises the library on concrete states.
